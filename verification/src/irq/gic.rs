//! GICv3 distributor and redistributor set-up.
//!
//! Register reads go through a reader `read(base, offset)` supplied by the
//! caller; register writes are returned as `RegWrite`s for the caller to
//! perform in order.
use vstd::prelude::*;
use crate::irq::consts::{
    FGIC_GICD_4_PER_REG, FGIC_GICD_CTLR_RWP_MASK, FGIC_GICD_IPRIORITYR_OFFSET,
    FGIC_GICD_TYPER_ITLINESNUMBER_MASK, FGIC_GICR_CTLR_RWP_MASK, FGIC_GICR_ICENABLER0_DEFAULT_MASK,
    FGIC_GICR_ICENABLER0_OFFSET, FGIC_GICR_ICFGR0_OFFSET, FGIC_GICR_ICFGR1_OFFSET,
    FGIC_GICR_ICPENDR0_DEFAULT_MASK, FGIC_GICR_ICPENDR0_OFFSET, FGIC_GICR_IGROUPR0_DEFAULT_MASK,
    FGIC_GICR_IGROUPR0_OFFSET, FGIC_GICR_IGRPMODR0_DEFAULT_MASK, FGIC_GICR_IGRPMODR0_OFFSET,
    FGIC_GICR_IPRIORITYR_OFFSET, FGIC_GICR_SGI_BASE_OFFSET, FGIC_GICR_TYPER_H_OFFSET,
    FGIC_GICR_WAKER_CHILDREN_ASLEEP_MASK, FGIC_GICR_WAKER_OFFSET, FGIC_INT_DEFAULT_PRI_X4,
    FGIC_LPI_START_ID, FGIC_PPI_END_ID, FGIC_RWP_TIMEOUT, FGIC_SPI_START_ID, FGIC_WAKER_TIMEOUT,
    GICV3_DISTRIBUTOR_BASE_ADDR, GICV3_ITS_BASE_ADDR, GICV3_RD_BASE_ADDR, GICV3_RD_OFFSET,
    GICV3_RD_SIZE, SpiRoutingMode,
};
use crate::irq::err::{GicError, GicStatus};
use crate::mci::consts::MCIId;
use crate::regs::RegWrite;

verus! {

/// Where the controller's register frames are.
#[derive(Clone, Copy, PartialEq, Eq, Structural, Debug)]
pub struct GicConfig {
    instance_id: MCIId,
    dis_base: u32,
    its_base: u32,
}

impl Default for GicConfig {
    fn default() -> (r: Self)
        ensures
            r.spec_instance_id() == MCIId::MCI0,
            r.spec_dis_base() == 0,
            r.spec_its_base() == 0,
    {
        GicConfig { instance_id: MCIId::MCI0, dis_base: 0, its_base: 0 }
    }
}

impl GicConfig {
    pub closed spec fn spec_instance_id(self) -> MCIId {
        self.instance_id
    }

    /// Base of the distributor.
    pub closed spec fn spec_dis_base(self) -> u32 {
        self.dis_base
    }

    /// Base of the interrupt translation service.
    pub closed spec fn spec_its_base(self) -> u32 {
        self.its_base
    }

    /// The configuration of the board's controller.
    pub fn lookup_config() -> (r: Self)
        ensures
            r.spec_instance_id() == MCIId::MCI0,
            r.spec_dis_base() == GICV3_DISTRIBUTOR_BASE_ADDR,
            r.spec_its_base() == GICV3_ITS_BASE_ADDR,
    {
        Self {
            instance_id: MCIId::MCI0,
            dis_base: GICV3_DISTRIBUTOR_BASE_ADDR,
            its_base: GICV3_ITS_BASE_ADDR,
        }
    }

    /// Base of the distributor.
    pub fn dis_base(&self) -> (r: u32)
        ensures
            r == self.spec_dis_base(),
    {
        self.dis_base
    }
}

/// How to wait for a register write to take effect.
#[derive(Clone, Copy, PartialEq, Eq, Structural, Debug)]
pub enum WaitRwqMode {
    /// Wait on the distributor's register-write-pending bit.
    GicdCtlrRwpWait,
    /// Wait on the redistributor's register-write-pending bit.
    GicrCtlrRwpWait,
}

/// The largest shared interrupt id that a distributor type register value
/// announces: 32 interrupts per line count, minus one.
pub open spec fn spec_max_spi_num(gicd_typer: u32) -> int {
    ((gicd_typer & FGIC_GICD_TYPER_ITLINESNUMBER_MASK) + 1) * 32 - 1
}

/// Offset of the distributor priority register used for shared interrupt
/// `int_id`: `(FGIC_GICD_IPRIORITYR_OFFSET + int_id / 4) << 2`.
pub open spec fn spec_spi_prio_offset(int_id: u32) -> int {
    (FGIC_GICD_IPRIORITYR_OFFSET + int_id / 4) * 4
}

/// A priority register value with the priority byte of `int_id` replaced by
/// the low byte of `prio`.
pub open spec fn spec_prio_value(current: u32, int_id: u32, prio: u32) -> u32 {
    let shift = ((int_id % 4) * 8) as u32;
    (current & !(0xFFu32 << shift)) | ((prio & 0xFF) << shift)
}

/// The base addresses of the redistributor frames, in search order.
pub open spec fn is_redistributor_frame(base: u32) -> bool {
    &&& GICV3_RD_BASE_ADDR <= base < GICV3_RD_BASE_ADDR + GICV3_RD_SIZE
    &&& (base - GICV3_RD_BASE_ADDR) % (GICV3_RD_OFFSET as int) == 0
}

/// A read of the affinity register of frame `base` that did not give
/// `mpidr_aff`.
pub open spec fn read_mismatched<R: Fn(u32, u32) -> u32>(read: R, base: u32, mpidr_aff: u64) -> bool {
    exists|v: u32| read.ensures((base, FGIC_GICR_TYPER_H_OFFSET), v) && v as u64 != mpidr_aff
}

/// Two frames less than one frame distance apart are the same frame.
proof fn lemma_frames_apart(f: u32, g: u32)
    requires
        is_redistributor_frame(f),
        GICV3_RD_BASE_ADDR <= g,
        (g - GICV3_RD_BASE_ADDR) % (GICV3_RD_OFFSET as int) == 0,
        g <= f < g + GICV3_RD_OFFSET,
    ensures
        f == g,
{
    let a = f - GICV3_RD_BASE_ADDR;
    let b = g - GICV3_RD_BASE_ADDR;
    assert(a == b) by (nonlinear_arith)
        requires
            a % 0x2_0000 == 0,
            b % 0x2_0000 == 0,
            b <= a < b + 0x2_0000,
            b >= 0,
    ;
}

/// The writes that set up the SGI/PPI frame at `sgi_base`: disable and clear
/// every SGI and PPI, set their group, give each the default priority and
/// make them level-sensitive.
pub open spec fn spec_redis_init_writes(sgi_base: u32) -> Seq<RegWrite> {
    seq![
        RegWrite { base: sgi_base, offset: FGIC_GICR_ICENABLER0_OFFSET, value: FGIC_GICR_ICENABLER0_DEFAULT_MASK },
        RegWrite { base: sgi_base, offset: FGIC_GICR_ICPENDR0_OFFSET, value: FGIC_GICR_ICPENDR0_DEFAULT_MASK },
        RegWrite { base: sgi_base, offset: FGIC_GICR_IGROUPR0_OFFSET, value: FGIC_GICR_IGROUPR0_DEFAULT_MASK },
        RegWrite { base: sgi_base, offset: FGIC_GICR_IGRPMODR0_OFFSET, value: FGIC_GICR_IGRPMODR0_DEFAULT_MASK },
    ] + Seq::new(8, |k: int| RegWrite {
        base: sgi_base,
        offset: (FGIC_GICR_IPRIORITYR_OFFSET + 4 * k) as u32,
        value: FGIC_INT_DEFAULT_PRI_X4,
    }) + seq![
        RegWrite { base: sgi_base, offset: FGIC_GICR_ICFGR0_OFFSET, value: 0 },
        RegWrite { base: sgi_base, offset: FGIC_GICR_ICFGR1_OFFSET, value: 0 },
    ]
}

/// What setting up the SGI/PPI frame at `sgi_base` writes: fourteen writes,
/// all to that frame.  Each register written gets its documented default:
/// the enable-clear and pending-clear registers all ones (every SGI and PPI
/// disabled, nothing pending), the group register all ones (every SGI and
/// PPI in group 1), the group modifier register its default, each priority
/// register the default priority in all four bytes, and both configuration
/// registers zero.  Every one of these registers is written, the eight
/// priority registers included (in order, after the group registers), and no
/// other.
pub proof fn lemma_redis_init_writes_defaults(sgi_base: u32)
    ensures
        ({
            let w = spec_redis_init_writes(sgi_base);
            &&& w.len() == 14
            &&& forall|i: int|
                0 <= i < 14 ==> {
                    let o = (#[trigger] w[i]).offset;
                    &&& w[i].base == sgi_base
                    &&& o == FGIC_GICR_ICENABLER0_OFFSET ==> w[i].value
                        == FGIC_GICR_ICENABLER0_DEFAULT_MASK
                    &&& o == FGIC_GICR_ICPENDR0_OFFSET ==> w[i].value
                        == FGIC_GICR_ICPENDR0_DEFAULT_MASK
                    &&& o == FGIC_GICR_IGROUPR0_OFFSET ==> w[i].value
                        == FGIC_GICR_IGROUPR0_DEFAULT_MASK
                    &&& o == FGIC_GICR_IGRPMODR0_OFFSET ==> w[i].value
                        == FGIC_GICR_IGRPMODR0_DEFAULT_MASK
                    &&& FGIC_GICR_IPRIORITYR_OFFSET <= o < FGIC_GICR_IPRIORITYR_OFFSET + 32 ==> w[i].value
                        == FGIC_INT_DEFAULT_PRI_X4
                    &&& o == FGIC_GICR_ICFGR0_OFFSET || o == FGIC_GICR_ICFGR1_OFFSET ==> w[i].value == 0
                    &&& o == FGIC_GICR_ICENABLER0_OFFSET || o == FGIC_GICR_ICPENDR0_OFFSET || o
                        == FGIC_GICR_IGROUPR0_OFFSET || o == FGIC_GICR_IGRPMODR0_OFFSET || (
                    FGIC_GICR_IPRIORITYR_OFFSET <= o < FGIC_GICR_IPRIORITYR_OFFSET + 32 && o % 4 == 0)
                        || o == FGIC_GICR_ICFGR0_OFFSET || o == FGIC_GICR_ICFGR1_OFFSET
                }
            &&& exists|i: int| 0 <= i < 14 && (#[trigger] w[i]).offset == FGIC_GICR_ICENABLER0_OFFSET
            &&& exists|i: int| 0 <= i < 14 && (#[trigger] w[i]).offset == FGIC_GICR_ICPENDR0_OFFSET
            &&& exists|i: int| 0 <= i < 14 && (#[trigger] w[i]).offset == FGIC_GICR_IGROUPR0_OFFSET
            &&& exists|i: int| 0 <= i < 14 && (#[trigger] w[i]).offset == FGIC_GICR_IGRPMODR0_OFFSET
            &&& exists|i: int| 0 <= i < 14 && (#[trigger] w[i]).offset == FGIC_GICR_ICFGR0_OFFSET
            &&& exists|i: int| 0 <= i < 14 && (#[trigger] w[i]).offset == FGIC_GICR_ICFGR1_OFFSET
            &&& forall|i: int|
                4 <= i < 12 ==> (#[trigger] w[i]).offset == FGIC_GICR_IPRIORITYR_OFFSET + 4 * (i - 4)
        }),
{
    let w = spec_redis_init_writes(sgi_base);
    assert(w.len() == 14);
    assert forall|k: int| 0 <= k < 8 implies (#[trigger] w[4 + k]).offset
        == FGIC_GICR_IPRIORITYR_OFFSET + 4 * k && w[4 + k].value == FGIC_INT_DEFAULT_PRI_X4
        && w[4 + k].base == sgi_base by {
    }
    assert(w[0].offset == FGIC_GICR_ICENABLER0_OFFSET);
    assert(w[1].offset == FGIC_GICR_ICPENDR0_OFFSET);
    assert(w[2].offset == FGIC_GICR_IGROUPR0_OFFSET);
    assert(w[3].offset == FGIC_GICR_IGRPMODR0_OFFSET);
    assert(w[12].offset == FGIC_GICR_ICFGR0_OFFSET);
    assert(w[13].offset == FGIC_GICR_ICFGR1_OFFSET);
    assert forall|i: int| 4 <= i < 12 implies (#[trigger] w[i]).offset == FGIC_GICR_IPRIORITYR_OFFSET
        + 4 * (i - 4) by {
        assert(w[4 + (i - 4)].offset == FGIC_GICR_IPRIORITYR_OFFSET + 4 * (i - 4));
    }
    assert forall|i: int| 0 <= i < 14 implies {
        let o = (#[trigger] w[i]).offset;
        &&& w[i].base == sgi_base
        &&& o == FGIC_GICR_ICENABLER0_OFFSET ==> w[i].value == FGIC_GICR_ICENABLER0_DEFAULT_MASK
        &&& o == FGIC_GICR_ICPENDR0_OFFSET ==> w[i].value == FGIC_GICR_ICPENDR0_DEFAULT_MASK
        &&& o == FGIC_GICR_IGROUPR0_OFFSET ==> w[i].value == FGIC_GICR_IGROUPR0_DEFAULT_MASK
        &&& o == FGIC_GICR_IGRPMODR0_OFFSET ==> w[i].value == FGIC_GICR_IGRPMODR0_DEFAULT_MASK
        &&& FGIC_GICR_IPRIORITYR_OFFSET <= o < FGIC_GICR_IPRIORITYR_OFFSET + 32 ==> w[i].value
            == FGIC_INT_DEFAULT_PRI_X4
        &&& o == FGIC_GICR_ICFGR0_OFFSET || o == FGIC_GICR_ICFGR1_OFFSET ==> w[i].value == 0
        &&& o == FGIC_GICR_ICENABLER0_OFFSET || o == FGIC_GICR_ICPENDR0_OFFSET || o
            == FGIC_GICR_IGROUPR0_OFFSET || o == FGIC_GICR_IGRPMODR0_OFFSET || (
        FGIC_GICR_IPRIORITYR_OFFSET <= o < FGIC_GICR_IPRIORITYR_OFFSET + 32 && o % 4 == 0) || o
            == FGIC_GICR_ICFGR0_OFFSET || o == FGIC_GICR_ICFGR1_OFFSET
    } by {
        if 4 <= i < 12 {
            assert(w[4 + (i - 4)].offset == FGIC_GICR_IPRIORITYR_OFFSET + 4 * (i - 4));
        }
    }
}

/// State of the interrupt controller driver.
#[derive(Clone, Copy, PartialEq, Eq, Structural, Debug)]
pub struct Gic {
    config: GicConfig,
    is_ready: bool,
    redis_base: u32,
    max_spi_num: i32,
    max_lpi_num: i32,
}

impl Default for Gic {
    fn default() -> (r: Self)
        ensures
            r.spec_config().spec_instance_id() == MCIId::MCI0,
            r.spec_config().spec_dis_base() == 0,
            r.spec_config().spec_its_base() == 0,
            !r.spec_is_ready(),
            r.spec_redis_base() == 0,
            r.spec_max_spi_num() == 0,
            r.spec_max_lpi_num() == 0,
    {
        Gic {
            config: GicConfig { instance_id: MCIId::MCI0, dis_base: 0, its_base: 0 },
            is_ready: false,
            redis_base: 0,
            max_spi_num: 0,
            max_lpi_num: 0,
        }
    }
}

impl Gic {
    pub closed spec fn spec_config(self) -> GicConfig {
        self.config
    }

    pub closed spec fn spec_is_ready(self) -> bool {
        self.is_ready
    }

    /// Base of the current CPU's redistributor.
    pub closed spec fn spec_redis_base(self) -> u32 {
        self.redis_base
    }

    /// Largest shared interrupt id.
    pub closed spec fn spec_max_spi_num(self) -> i32 {
        self.max_spi_num
    }

    /// Bound of the locality-specific interrupt ids.
    pub closed spec fn spec_max_lpi_num(self) -> i32 {
        self.max_lpi_num
    }

    /// Takes the configuration and the redistributor of the current CPU,
    /// marks the driver ready, and derives the largest shared interrupt id
    /// from `gicd_typer`, the value of the distributor type register.
    pub fn cfg_init(&mut self, config: GicConfig, redis_base: u32, gicd_typer: u32)
        ensures
            final(self).spec_config() == config,
            final(self).spec_redis_base() == redis_base,
            final(self).spec_is_ready(),
            final(self).spec_max_spi_num() as int == spec_max_spi_num(gicd_typer),
            final(self).spec_max_lpi_num() == old(self).spec_max_lpi_num(),
    {
        self.config = config;
        self.redis_base = redis_base;
        self.is_ready = true;
        let mut max_ints_num = gicd_typer;
        max_ints_num &= FGIC_GICD_TYPER_ITLINESNUMBER_MASK;
        assert(max_ints_num <= 31) by (bit_vector)
            requires
                max_ints_num == gicd_typer & 0x1F,
        ;
        let lines: u32 = max_ints_num + 1;
        assert(lines << 5 == lines * 32) by (bit_vector)
            requires
                lines <= 32,
        ;
        max_ints_num = (lines << 5) - 1;
        self.max_spi_num = max_ints_num as i32;
    }

    /// Whether `cfg_init` has run.
    pub fn is_ready(&self) -> (r: bool)
        ensures
            r == self.spec_is_ready(),
    {
        self.is_ready
    }

    /// Largest shared interrupt id.
    pub fn max_spi_num(&self) -> (r: i32)
        ensures
            r == self.spec_max_spi_num(),
    {
        self.max_spi_num
    }

    /// Base of the current CPU's redistributor.
    pub fn redis_base(&self) -> (r: u32)
        ensures
            r == self.spec_redis_base(),
    {
        self.redis_base
    }

    /// Searches the redistributor frames in address order for the one whose
    /// affinity (upper type register, read with `read`) equals `mpidr_aff`,
    /// the affinity of the current CPU.  The result is the first frame whose
    /// read matched: every frame before it was read and did not match, and
    /// when no frame is found every frame was read and none matched.
    pub fn gic_redistributor_iterate<R: Fn(u32, u32) -> u32>(&self, mpidr_aff: u64, read: R) -> (r:
        Option<u32>)
        requires
            forall|b: u32, o: u32| read.requires((b, o)),
        ensures
            r matches Some(base) ==> is_redistributor_frame(base) && exists|v: u32|
                read.ensures((base, FGIC_GICR_TYPER_H_OFFSET), v) && v as u64 == mpidr_aff,
            r matches Some(base) ==> forall|f: u32|
                #![trigger is_redistributor_frame(f)]
                is_redistributor_frame(f) && f < base ==> read_mismatched(read, f, mpidr_aff),
            r is None ==> forall|f: u32|
                #![trigger is_redistributor_frame(f)]
                is_redistributor_frame(f) ==> read_mismatched(read, f, mpidr_aff),
            (forall|b: u32, o: u32, v: u32| read.ensures((b, o), v) ==> v as u64 != mpidr_aff)
                ==> r is None,
    {
        let mut redis_base = GICV3_RD_BASE_ADDR;
        while redis_base < GICV3_RD_BASE_ADDR + GICV3_RD_SIZE
            invariant
                forall|b: u32, o: u32| read.requires((b, o)),
                GICV3_RD_BASE_ADDR <= redis_base <= GICV3_RD_BASE_ADDR + GICV3_RD_SIZE,
                (redis_base - GICV3_RD_BASE_ADDR) % (GICV3_RD_OFFSET as int) == 0,
                forall|f: u32|
                    #![trigger is_redistributor_frame(f)]
                    is_redistributor_frame(f) && f < redis_base ==> read_mismatched(
                        read,
                        f,
                        mpidr_aff,
                    ),
            decreases GICV3_RD_BASE_ADDR + GICV3_RD_SIZE - redis_base,
        {
            let gicr_typer_aff = read(redis_base, FGIC_GICR_TYPER_H_OFFSET);
            if gicr_typer_aff as u64 == mpidr_aff {
                return Some(redis_base);
            }
            proof {
                assert(read_mismatched(read, redis_base, mpidr_aff));
                assert forall|f: u32|
                    #![trigger is_redistributor_frame(f)]
                    is_redistributor_frame(f) && f < redis_base + GICV3_RD_OFFSET implies read_mismatched(
                        read,
                        f,
                        mpidr_aff,
                    ) by {
                    if f >= redis_base {
                        lemma_frames_apart(f, redis_base);
                    }
                }
            }
            redis_base += GICV3_RD_OFFSET;
        }
        None
    }

    /// Waits until the redistributor reports that it is awake: the
    /// children-asleep bit of its wake register (read with `read`) reads 0.
    /// Gives up with a timeout when the first `FGIC_WAKER_TIMEOUT` readings
    /// all show the bit set (see `wait_bits_clear`).
    pub fn redis_wake_wait<R: Fn(u32, u32, u32) -> u32>(&self, read: R) -> (r: GicStatus)
        requires
            forall|k: u32|
                k < FGIC_WAKER_TIMEOUT ==> read.requires((self.spec_redis_base(), FGIC_GICR_WAKER_OFFSET, k)),
        ensures
            r == Ok::<(), GicError>(()) || r == Err::<(), GicError>(GicError::Timeout),
            forall|s: spec_fn(u32) -> u32|
                #[trigger] reads_as(read, self.spec_redis_base(), FGIC_GICR_WAKER_OFFSET, s) ==> (r is Ok
                    <==> clear_within(s, FGIC_GICR_WAKER_CHILDREN_ASLEEP_MASK, FGIC_WAKER_TIMEOUT)),
            (forall|k: u32, v: u32|
                read.ensures((self.spec_redis_base(), FGIC_GICR_WAKER_OFFSET, k), v) ==> v
                    & FGIC_GICR_WAKER_CHILDREN_ASLEEP_MASK == 0) ==> r is Ok,
            (forall|k: u32, v: u32|
                read.ensures((self.spec_redis_base(), FGIC_GICR_WAKER_OFFSET, k), v) ==> v
                    & FGIC_GICR_WAKER_CHILDREN_ASLEEP_MASK != 0) ==> r is Err,
    {
        let base = self.redis_base;
        assert(base == self.spec_redis_base());
        wait_bits_clear(
            read,
            base,
            FGIC_GICR_WAKER_OFFSET,
            FGIC_GICR_WAKER_CHILDREN_ASLEEP_MASK,
            FGIC_WAKER_TIMEOUT,
        )
    }

    /// Waits until no register write is pending: the write-pending bit
    /// chosen by `mode` reads 0 at offset 0 of the redistributor.  Gives up
    /// with a timeout when the first `FGIC_RWP_TIMEOUT` readings all show the
    /// bit set (see `wait_bits_clear`).
    pub fn wait_rwp<R: Fn(u32, u32, u32) -> u32>(&self, mode: WaitRwqMode, read: R) -> (r: GicStatus)
        requires
            forall|k: u32| k < FGIC_RWP_TIMEOUT ==> read.requires((self.spec_redis_base(), 0u32, k)),
        ensures
            r == Ok::<(), GicError>(()) || r == Err::<(), GicError>(GicError::Timeout),
            forall|s: spec_fn(u32) -> u32|
                #[trigger] reads_as(read, self.spec_redis_base(), 0u32, s) ==> (r is Ok <==> clear_within(
                    s,
                    spec_rwp_mask(mode),
                    FGIC_RWP_TIMEOUT,
                )),
            (forall|k: u32, v: u32|
                read.ensures((self.spec_redis_base(), 0u32, k), v) ==> v & spec_rwp_mask(mode) == 0)
                ==> r is Ok,
            (forall|k: u32, v: u32|
                read.ensures((self.spec_redis_base(), 0u32, k), v) ==> v & spec_rwp_mask(mode) != 0)
                ==> r is Err,
    {
        let rwp_mask = if mode == WaitRwqMode::GicdCtlrRwpWait {
            FGIC_GICD_CTLR_RWP_MASK
        } else {
            FGIC_GICR_CTLR_RWP_MASK
        };
        let base = self.redis_base;
        assert(base == self.spec_redis_base());
        wait_bits_clear(read, base, 0, rwp_mask, FGIC_RWP_TIMEOUT)
    }

    /// The register writes that set up the SGI/PPI frame of the current
    /// CPU's redistributor (see `spec_redis_init_writes`).
    pub fn redis_init_writes(&self) -> (r: Vec<RegWrite>)
        requires
            self.spec_redis_base() + FGIC_GICR_SGI_BASE_OFFSET <= u32::MAX,
        ensures
            r@ == spec_redis_init_writes((self.spec_redis_base() + FGIC_GICR_SGI_BASE_OFFSET) as u32),
    {
        let sgi_base = self.redis_base + FGIC_GICR_SGI_BASE_OFFSET;
        let mut writes: Vec<RegWrite> = Vec::new();
        writes.push(RegWrite { base: sgi_base, offset: FGIC_GICR_ICENABLER0_OFFSET, value: FGIC_GICR_ICENABLER0_DEFAULT_MASK });
        writes.push(RegWrite { base: sgi_base, offset: FGIC_GICR_ICPENDR0_OFFSET, value: FGIC_GICR_ICPENDR0_DEFAULT_MASK });
        writes.push(RegWrite { base: sgi_base, offset: FGIC_GICR_IGROUPR0_OFFSET, value: FGIC_GICR_IGROUPR0_DEFAULT_MASK });
        writes.push(RegWrite { base: sgi_base, offset: FGIC_GICR_IGRPMODR0_OFFSET, value: FGIC_GICR_IGRPMODR0_DEFAULT_MASK });
        let ghost head = writes@;
        let ghost prios = Seq::new(8, |k: int| RegWrite {
            base: sgi_base,
            offset: (FGIC_GICR_IPRIORITYR_OFFSET + 4 * k) as u32,
            value: FGIC_INT_DEFAULT_PRI_X4,
        });
        let mut int_id: u32 = 0;
        while int_id < FGIC_SPI_START_ID
            invariant
                int_id % 4 == 0,
                int_id <= FGIC_SPI_START_ID,
                writes@ == head + prios.take(int_id as int / 4),
                prios.len() == 8,
                prios == Seq::new(8, |k: int| RegWrite {
                    base: sgi_base,
                    offset: (FGIC_GICR_IPRIORITYR_OFFSET + 4 * k) as u32,
                    value: FGIC_INT_DEFAULT_PRI_X4,
                }),
            decreases FGIC_SPI_START_ID - int_id,
        {
            assert((int_id >> 2) << 2 == int_id) by (bit_vector)
                requires
                    int_id % 4 == 0,
                    int_id < 32,
            ;
            let offset = ((int_id >> 2) << 2) + FGIC_GICR_IPRIORITYR_OFFSET;
            writes.push(RegWrite { base: sgi_base, offset, value: FGIC_INT_DEFAULT_PRI_X4 });
            assert(prios.take(int_id as int / 4 + 1) == prios.take(int_id as int / 4).push(
                prios[int_id as int / 4],
            ));
            int_id += FGIC_GICD_4_PER_REG;
        }
        assert(prios.take(8) == prios);
        writes.push(RegWrite { base: sgi_base, offset: FGIC_GICR_ICFGR0_OFFSET, value: 0 });
        writes.push(RegWrite { base: sgi_base, offset: FGIC_GICR_ICFGR1_OFFSET, value: 0 });
        writes
    }

    /// The register write that sets the priority of shared interrupt
    /// `int_id` (ids above 31) to the low byte of `prio`, reading the current
    /// register value with `read`.  The register sits in the distributor at
    /// offset `(FGIC_GICD_IPRIORITYR_OFFSET + int_id / 4) << 2` (see
    /// `spec_spi_prio_offset`) for ids up to the largest shared id;
    /// locality-specific ids need the translation service, which is not
    /// available; any other id is out of range.  Private interrupts (ids up
    /// to 31) are not accepted: the offset of their priority register is
    /// shifted left by `2 + FGIC_GICR_IPRIORITYR_OFFSET` bits, more than a
    /// 32-bit value has.
    pub fn set_prio<R: Fn(u32, u32) -> u32>(&self, int_id: i32, prio: u32, read: R) -> (r: Result<
        RegWrite,
        GicError,
    >)
        requires
            int_id > FGIC_PPI_END_ID,
            forall|b: u32, o: u32| read.requires((b, o)),
        ensures
            int_id <= self.spec_max_spi_num() ==> (r matches Ok(w) && w.base
                == self.spec_config().spec_dis_base() && w.offset == spec_spi_prio_offset(
                int_id as u32,
            ) && exists|v: u32|
                read.ensures((w.base, w.offset), v) && w.value == spec_prio_value(
                    v,
                    int_id as u32,
                    prio,
                )),
            int_id > self.spec_max_spi_num() && int_id >= FGIC_LPI_START_ID && int_id
                < self.spec_max_lpi_num() ==> r == Err::<RegWrite, GicError>(
                GicError::ItsDeviceNotExist,
            ),
            int_id > self.spec_max_spi_num() && !(int_id >= FGIC_LPI_START_ID && int_id
                < self.spec_max_lpi_num()) ==> r == Err::<RegWrite, GicError>(
                GicError::CtlrNumError,
            ),
    {
        let id = int_id as u32;
        if int_id <= self.max_spi_num {
            assert(id >> 2 == id / 4 && id / 4 <= 0x1FFF_FFFF) by (bit_vector)
                requires
                    id <= 0x7FFF_FFFF,
            ;
            let index = FGIC_GICD_IPRIORITYR_OFFSET + (id >> 2);
            assert(index << 2 == index * 4) by (bit_vector)
                requires
                    index <= 0x2000_03FF,
            ;
            let offset = index << 2;
            let current = read(self.config.dis_base, offset);
            let value = prio_value(current, id, prio);
            Ok(RegWrite { base: self.config.dis_base, offset, value })
        } else if id >= FGIC_LPI_START_ID && int_id < self.max_lpi_num {
            Err(GicError::ItsDeviceNotExist)
        } else {
            Err(GicError::CtlrNumError)
        }
    }

    /// Routing of shared interrupt `int_id`: only shared interrupts (ids
    /// above 31) can be routed.
    pub fn set_spi_affinity_routing(
        &mut self,
        int_id: i32,
        route_mode: SpiRoutingMode,
        affinity: u64,
    ) -> (r: GicStatus)
        ensures
            int_id <= FGIC_PPI_END_ID ==> r == Err::<(), GicError>(GicError::CtlrSetError),
            int_id > FGIC_PPI_END_ID ==> r == Ok::<(), GicError>(()),
            *final(self) == *old(self),
    {
        if int_id <= FGIC_PPI_END_ID {
            return Err(GicError::CtlrSetError);
        }
        Ok(())
    }
}

/// The reader `read` gives `s(k)` as its reading number `k` (counted from 0)
/// of the register at `base + offset`.
pub open spec fn reads_as<R: Fn(u32, u32, u32) -> u32>(
    read: R,
    base: u32,
    offset: u32,
    s: spec_fn(u32) -> u32,
) -> bool {
    forall|k: u32, v: u32| #[trigger] read.ensures((base, offset, k), v) ==> v == s(k)
}

/// One of the first `limit` readings `s` has the bits of `mask` clear.
pub open spec fn clear_within(s: spec_fn(u32) -> u32, mask: u32, limit: u32) -> bool {
    exists|k: u32| k < limit && #[trigger] s(k) & mask == 0
}

/// Reads the register at `base + offset` with `read(base, offset, k)`, `k`
/// counting the readings from 0, until a reading has the bits of `mask`
/// clear; succeeds then, and times out when `limit` readings all had a bit
/// of `mask` set.
pub fn wait_bits_clear<R: Fn(u32, u32, u32) -> u32>(
    read: R,
    base: u32,
    offset: u32,
    mask: u32,
    limit: u32,
) -> (r: GicStatus)
    requires
        forall|k: u32| k < limit ==> read.requires((base, offset, k)),
        limit > 0,
    ensures
        r == Ok::<(), GicError>(()) || r == Err::<(), GicError>(GicError::Timeout),
        forall|s: spec_fn(u32) -> u32|
            #[trigger] reads_as(read, base, offset, s) ==> (r is Ok <==> clear_within(s, mask, limit)),
        (forall|k: u32, v: u32| read.ensures((base, offset, k), v) ==> v & mask == 0) ==> r is Ok,
        (forall|k: u32, v: u32| read.ensures((base, offset, k), v) ==> v & mask != 0) ==> r is Err,
{
    let mut timeout: u32 = 0;
    loop
        invariant
            forall|k: u32| k < limit ==> read.requires((base, offset, k)),
            timeout < limit,
            forall|s: spec_fn(u32) -> u32|
                #[trigger] reads_as(read, base, offset, s) ==> forall|j: u32|
                    j < timeout ==> #[trigger] s(j) & mask != 0,
            (forall|k: u32, v: u32| read.ensures((base, offset, k), v) ==> v & mask == 0) ==> timeout
                == 0,
        decreases limit - timeout,
    {
        let v = read(base, offset, timeout);
        if v & mask == 0 {
            proof {
                assert forall|s: spec_fn(u32) -> u32|
                    #[trigger] reads_as(read, base, offset, s) implies clear_within(s, mask, limit) by {
                    assert(s(timeout) == v);
                    assert(s(timeout) & mask == 0);
                }
            }
            return Ok(());
        }
        proof {
            assert forall|s: spec_fn(u32) -> u32|
                #[trigger] reads_as(read, base, offset, s) implies forall|j: u32|
                    j < timeout + 1 ==> #[trigger] s(j) & mask != 0 by {
                assert(s(timeout) == v);
            }
        }
        timeout += 1;
        if timeout >= limit {
            proof {
                assert forall|s: spec_fn(u32) -> u32|
                    #[trigger] reads_as(read, base, offset, s) implies !clear_within(s, mask, limit) by {
                    assert(forall|j: u32| j < timeout ==> #[trigger] s(j) & mask != 0);
                }
            }
            return Err(GicError::Timeout);
        }
    }
}

/// The write-pending bit that `wait_rwp` waits on in `mode`.
pub open spec fn spec_rwp_mask(mode: WaitRwqMode) -> u32 {
    match mode {
        WaitRwqMode::GicdCtlrRwpWait => FGIC_GICD_CTLR_RWP_MASK,
        WaitRwqMode::GicrCtlrRwpWait => FGIC_GICR_CTLR_RWP_MASK,
    }
}

/// The priority register value with the byte of `int_id` replaced by the low
/// byte of `prio` (see `spec_prio_value`).
pub fn prio_value(current: u32, int_id: u32, prio: u32) -> (r: u32)
    ensures
        r == spec_prio_value(current, int_id, prio),
        (r >> (((int_id % 4) * 8) as u32)) & 0xFF == prio & 0xFF,
{
    let shift = (int_id % 4) * 8;
    let mut mask = current;
    mask &= !fgic_ipriorityr_value_mask(int_id);
    mask |= (prio & 0xFF) << shift;
    assert(((((current & !(0xFFu32 << shift)) | ((prio & 0xFF) << shift)) >> shift) & 0xFF) == prio
        & 0xFF) by (bit_vector)
        requires
            shift == 0 || shift == 8 || shift == 16 || shift == 24,
    ;
    mask
}

/// The byte of a priority register that holds interrupt `int_id`.
pub fn fgic_ipriorityr_value_mask(int_id: u32) -> (r: u32)
    ensures
        r == 0xFFu32 << (((int_id % 4) * 8) as u32),
{
    0xFFu32 << ((int_id % 4) * 8)
}

/// Setting a priority changes only the byte of that interrupt: the bytes of
/// the other three interrupts in the register keep their value.
pub proof fn lemma_prio_value_keeps_other_bytes(current: u32, int_id: u32, prio: u32, other: u32)
    requires
        other < 4,
        other != int_id % 4,
    ensures
        (spec_prio_value(current, int_id, prio) >> ((other * 8) as u32)) & 0xFF == (current >> ((
            other * 8) as u32)) & 0xFF,
{
    let s = ((int_id % 4) * 8) as u32;
    let t = (other * 8) as u32;
    assert((((current & !(0xFFu32 << s)) | ((prio & 0xFF) << s)) >> t) & 0xFF == (current >> t)
        & 0xFF) by (bit_vector)
        requires
            s == 0 || s == 8 || s == 16 || s == 24,
            t == 0 || t == 8 || t == 16 || t == 24,
            s != t,
    ;
}

} // verus!
