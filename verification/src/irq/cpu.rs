//! CPU identities and their affinity values.
use vstd::prelude::*;
use crate::irq::consts::INTERRUPT_CPU_TARGET_ALL_SET;

verus! {

/// Affinity value (MPIDR affinity fields) of core 0.
pub const CORE0_AFF: u64 = 0x000;

/// Affinity value of core 1.
pub const CORE1_AFF: u64 = 0x100;

/// Affinity value of core 2.
pub const CORE2_AFF: u64 = 0x200;

/// Affinity value of core 3.
pub const CORE3_AFF: u64 = 0x201;

/// Number of cores on the board.
pub const CORE_NUM: u32 = 4;

/// The affinity value of core `cpu_id`, for the cores of the board.
pub open spec fn spec_core_affinity(cpu_id: u32) -> u64
    recommends
        cpu_id < CORE_NUM,
{
    if cpu_id == 0 {
        CORE0_AFF
    } else if cpu_id == 1 {
        CORE1_AFF
    } else if cpu_id == 2 {
        CORE2_AFF
    } else {
        CORE3_AFF
    }
}

/// The routing affinity of a shared interrupt for a core of affinity
/// `cluster`: bits 24..31 move to bits 0..7, the rest keeps its place.
pub open spec fn spec_spi_route_affinity(cluster: u64) -> u64 {
    (cluster & !(0xFFu64 << 24u64)) | ((cluster >> 24u64) & 0xFF)
}

/// A core of the board, or the target that stands for every core.
pub struct CpuId(u32);

impl CpuId {
    #[verifier::type_invariant]
    spec fn wf(self) -> bool {
        self.0 < CORE_NUM || self.0 == INTERRUPT_CPU_TARGET_ALL_SET
    }

    /// The number of the core.
    pub closed spec fn spec_id(self) -> u32 {
        self.0
    }

    /// The number of the core, or `INTERRUPT_CPU_TARGET_ALL_SET`.
    pub fn id(&self) -> (r: u32)
        ensures
            r == self.spec_id(),
            r < CORE_NUM || r == INTERRUPT_CPU_TARGET_ALL_SET,
    {
        proof {
            use_type_invariant(self);
        }
        self.0
    }

    /// Routes interrupt `int_id` to this core.  The routing value of a single
    /// core is its affinity with bits 24..31 moved to bits 0..7
    /// (`spi_route_affinity`); the target of every core needs no routing.
    pub fn set_target_cpus_interrupt(&self, int_id: isize) {
        proof {
            use_type_invariant(self);
        }
        if self.0 == INTERRUPT_CPU_TARGET_ALL_SET {
        } else {
            let cluster = match get_cpu_affinity(self.0) {
                Ok(cluster) => cluster,
                Err(_) => {
                    return;
                },
            };
            let _route = spi_route_affinity(cluster);
        }
    }
}

/// The affinity of core `cpu_id`, or an error for a core the board does not
/// have.
pub fn get_cpu_affinity(cpu_id: u32) -> (r: Result<u64, &'static str>)
    ensures
        cpu_id < CORE_NUM ==> r == Ok::<u64, &'static str>(spec_core_affinity(cpu_id)),
        cpu_id >= CORE_NUM ==> r == Err::<u64, &'static str>("Unknown CPU affinity"),
{
    let affinity_level = match cpu_id {
        0 => CORE0_AFF,
        1 => CORE1_AFF,
        2 => CORE2_AFF,
        3 => CORE3_AFF,
        _ => return Err("Unknown CPU affinity"),
    };
    Ok(affinity_level)
}

/// The core whose affinity value is `affinity`, or an error when no core of
/// the board has it.
pub fn get_cpu_id_from_affinity(affinity: u64) -> (r: Result<CpuId, &'static str>)
    ensures
        match r {
            Ok(id) => id.spec_id() < CORE_NUM && spec_core_affinity(id.spec_id()) == affinity,
            Err(e) => e == "Unknown CPU affinity" && forall|i: u32|
                i < CORE_NUM ==> spec_core_affinity(i) != affinity,
        },
{
    let id = match affinity {
        CORE0_AFF => 0,
        CORE1_AFF => 1,
        CORE2_AFF => 2,
        CORE3_AFF => 3,
        _ => return Err("Unknown CPU affinity"),
    };
    Ok(CpuId(id))
}

/// The routing affinity of a shared interrupt for a core of affinity
/// `cluster` (see `spec_spi_route_affinity`).
pub fn spi_route_affinity(cluster: u64) -> (r: u64)
    ensures
        r == spec_spi_route_affinity(cluster),
{
    let temp_cluster = (cluster >> 24) & 0xFF;
    let mut cluster = cluster;
    cluster &= !(0xFFu64 << 24u64);
    cluster |= temp_cluster;
    cluster
}

/// Looking up the affinity of a core and then the core of that affinity
/// gives the same core back: no two cores share an affinity.
pub proof fn lemma_affinity_round_trip(cpu_id: u32, other: u32)
    requires
        cpu_id < CORE_NUM,
        other < CORE_NUM,
        spec_core_affinity(cpu_id) == spec_core_affinity(other),
    ensures
        cpu_id == other,
{
}

/// For the affinities of the board's cores, which lie below bit 24, the
/// routing value is the affinity itself.
pub proof fn lemma_board_route_affinity(cpu_id: u32)
    requires
        cpu_id < CORE_NUM,
    ensures
        spec_spi_route_affinity(spec_core_affinity(cpu_id)) == spec_core_affinity(cpu_id),
{
    let a = spec_core_affinity(cpu_id);
    assert(a < 0x1000);
    assert(a < 0x1000 ==> (a & !(0xFFu64 << 24u64)) | ((a >> 24u64) & 0xFF) == a) by (bit_vector);
}

} // verus!
