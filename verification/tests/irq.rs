use core::num::NonZeroUsize;
use phytium_mci::irq::consts::{SpiRoutingMode, INTERRUPT_CPU_TARGET_ALL_SET};
use phytium_mci::irq::cpu::{
    get_cpu_affinity, get_cpu_id_from_affinity, spi_route_affinity, CORE0_AFF, CORE1_AFF,
    CORE2_AFF, CORE3_AFF,
};
use phytium_mci::irq::err::GicError;
use phytium_mci::irq::gic::{
    fgic_ipriorityr_value_mask, prio_value, Gic, GicConfig, WaitRwqMode,
};
use phytium_mci::irq::interrupt::{
    handler_set, interrupt_install, param_set, IrqDesc, IsrTable, MAX_HANDLERS,
};
use phytium_mci::irq::reg::{gic_clear_bit, gic_retry_for};
use phytium_mci::regs::{RegError, RegWrite};

type Handler = fn(u32, u32);

fn h1(_a: u32, _b: u32) {}

fn h2(_a: u32, _b: u32) {}

#[test]
fn routing_mode_bits() {
    assert_eq!(SpiRoutingMode::SpiRoutingToSpecific.bits(), 0);
    assert_eq!(SpiRoutingMode::SpiRoutingToAny.bits(), 1 << 31);
}

#[test]
fn cpu_affinity_table() {
    assert_eq!(get_cpu_affinity(0), Ok(CORE0_AFF));
    assert_eq!(get_cpu_affinity(1), Ok(CORE1_AFF));
    assert_eq!(get_cpu_affinity(2), Ok(CORE2_AFF));
    assert_eq!(get_cpu_affinity(3), Ok(CORE3_AFF));
    assert_eq!(get_cpu_affinity(4), Err("Unknown CPU affinity"));
    assert!(get_cpu_affinity(INTERRUPT_CPU_TARGET_ALL_SET).is_err());
}

#[test]
fn cpu_id_round_trip() {
    for id in 0..4u32 {
        let aff = get_cpu_affinity(id).unwrap();
        let cpu = get_cpu_id_from_affinity(aff).ok().unwrap();
        assert_eq!(cpu.id(), id);
        cpu.set_target_cpus_interrupt(40);
    }
    assert_eq!(get_cpu_id_from_affinity(0x300).err(), Some("Unknown CPU affinity"));
}

#[test]
fn route_affinity_moves_top_byte() {
    assert_eq!(spi_route_affinity(0x0000_0201), 0x0000_0201);
    assert_eq!(spi_route_affinity(0xAB00_0100), 0x0000_01AB);
    assert_eq!(spi_route_affinity(0x1_2300_0000), 0x1_0000_0023);
}

#[test]
fn gic_error_timeout() {
    assert_eq!(<GicError as RegError>::timeout(), GicError::Timeout);
}

#[test]
fn irq_desc_setters() {
    let mut d: IrqDesc<Handler, NonZeroUsize> = IrqDesc::new();
    assert!(d.handler().is_none() && d.param().is_none());
    d.handler_set(Some(h1 as Handler));
    d.param_set(NonZeroUsize::new(9));
    assert!(d.handler().is_some());
    assert_eq!(d.param(), NonZeroUsize::new(9));
    d.handler_set(None);
    assert!(d.handler().is_none());
    assert_eq!(d.param(), NonZeroUsize::new(9));
}

#[test]
fn isr_table_install_and_lookup() {
    let mut t: IsrTable<Handler, NonZeroUsize> = IsrTable::new();
    for i in [0usize, 1, 511, MAX_HANDLERS - 1] {
        assert!(t.desc(i).handler().is_none() && t.desc(i).param().is_none());
    }
    interrupt_install(&mut t, 105, Some(h1 as Handler), NonZeroUsize::new(0x1000));
    assert!(t.desc(105).handler().is_some());
    assert_eq!(t.desc(105).param(), NonZeroUsize::new(0x1000));
    assert!(t.desc(104).handler().is_none());
    assert!(t.desc(106).param().is_none());
}

#[test]
fn isr_table_out_of_range_ids_are_ignored() {
    let mut t: IsrTable<Handler, NonZeroUsize> = IsrTable::new();
    interrupt_install(&mut t, -1, Some(h1 as Handler), NonZeroUsize::new(1));
    interrupt_install(&mut t, MAX_HANDLERS as isize, Some(h1 as Handler), NonZeroUsize::new(1));
    interrupt_install(&mut t, 8192, Some(h2 as Handler), NonZeroUsize::new(1));
    for i in 0..MAX_HANDLERS {
        assert!(t.desc(i).handler().is_none() && t.desc(i).param().is_none());
    }
}

#[test]
fn isr_table_free_setters() {
    let mut t: IsrTable<Handler, NonZeroUsize> = IsrTable::new();
    handler_set(&mut t, Some(h2 as Handler), 3);
    param_set(&mut t, NonZeroUsize::new(77), 3);
    assert!(t.desc(3).handler().is_some());
    assert_eq!(t.desc(3).param(), NonZeroUsize::new(77));
    param_set(&mut t, None, 3);
    assert!(t.desc(3).handler().is_some());
    assert!(t.desc(3).param().is_none());
}

#[test]
fn clear_bit_and_retry() {
    assert_eq!(gic_clear_bit(0xFF, 0x0F), 0xF0);
    assert_eq!(gic_clear_bit(0x6, 0x2), 0x4);
    assert_eq!(gic_retry_for(|v| v == 3, 5, |_k| 3), Ok(()));
    assert_eq!(gic_retry_for(|v| v == 3, 5, |_k| 4), Err(GicError::Timeout));
    assert_eq!(gic_retry_for(|_| true, 0, |_k| 3), Err(GicError::Timeout));
    // Reading number 4 is the first accepted one: five tries reach it, four do not.
    assert_eq!(gic_retry_for(|v| v == 4, 5, |k| k), Ok(()));
    assert_eq!(gic_retry_for(|v| v == 4, 4, |k| k), Err(GicError::Timeout));
}

#[test]
fn gic_config_and_cfg_init() {
    let cfg = GicConfig::lookup_config();
    assert_eq!(cfg.dis_base(), 0x3080_0000);
    let mut gic = Gic::default();
    assert!(!gic.is_ready());
    gic.cfg_init(cfg, 0x3088_0000, 0x0000_0007);
    assert!(gic.is_ready());
    assert_eq!(gic.max_spi_num(), 255);
    assert_eq!(gic.redis_base(), 0x3088_0000);
    gic.cfg_init(cfg, 0x3088_0000, 0xFFFF_FFFF);
    assert_eq!(gic.max_spi_num(), 1023);
    gic.cfg_init(cfg, 0x3088_0000, 0);
    assert_eq!(gic.max_spi_num(), 31);
}

#[test]
fn gic_redistributor_search() {
    let mut gic = Gic::default();
    gic.cfg_init(GicConfig::lookup_config(), 0, 0);
    // The third frame carries the affinity 0x201.
    let found = gic.gic_redistributor_iterate(0x201, |base, _off| {
        if base == 0x3088_0000 + 2 * 0x2_0000 { 0x201 } else { 0x999 }
    });
    assert_eq!(found, Some(0x308C_0000));
    assert_eq!(gic.gic_redistributor_iterate(0x201, |_b, _o| 0), None);
}

#[test]
fn gic_waits() {
    let mut gic = Gic::default();
    gic.cfg_init(GicConfig::lookup_config(), 0x3088_0000, 0);
    assert_eq!(gic.redis_wake_wait(|_b, _o, _k| 0), Ok(()));
    assert_eq!(gic.wait_rwp(WaitRwqMode::GicrCtlrRwpWait, |_b, _o, _k| 0x8000_0000), Ok(()));
    assert_eq!(gic.wait_rwp(WaitRwqMode::GicdCtlrRwpWait, |_b, _o, _k| 0x8), Ok(()));
    assert_eq!(gic.wait_rwp(WaitRwqMode::GicrCtlrRwpWait, |_b, _o, _k| 0x8), Err(GicError::Timeout));
    // The bit clears at reading 10: the wait succeeds there.
    assert_eq!(gic.redis_wake_wait(|_b, _o, k| if k < 10 { 0x4 } else { 0 }), Ok(()));
    // Reads go to the wake register of the redistributor.
    assert_eq!(
        gic.redis_wake_wait(|b, o, _k| if b == 0x3088_0000 && o == 0x14 { 0 } else { 0x4 }),
        Ok(())
    );
}

#[test]
fn gic_redis_init_writes() {
    let mut gic = Gic::default();
    gic.cfg_init(GicConfig::lookup_config(), 0x3088_0000, 0);
    let w = gic.redis_init_writes();
    let sgi = 0x3089_0000;
    assert_eq!(w.len(), 14);
    assert_eq!(w[0], RegWrite { base: sgi, offset: 0x180, value: 0xFFFF_FFFF });
    assert_eq!(w[3], RegWrite { base: sgi, offset: 0xD00, value: 0 });
    for k in 0..8u32 {
        assert_eq!(w[4 + k as usize], RegWrite { base: sgi, offset: 0x400 + 4 * k, value: 0xA0A0_A0A0 });
    }
    assert_eq!(w[13], RegWrite { base: sgi, offset: 0xC04, value: 0 });
}

#[test]
fn gic_set_prio() {
    let mut gic = Gic::default();
    gic.cfg_init(GicConfig::lookup_config(), 0x3088_0000, 0x3);
    // Shared interrupt 42: byte 2 of the distributor register at (0x400 + 10) << 2.
    let w = gic.set_prio(42, 0x3C, |_b, _o| 0).unwrap();
    assert_eq!(w, RegWrite { base: 0x3080_0000, offset: 0x1028, value: 0x003C_0000 });
    // Shared interrupt 32: byte 0 of the register at (0x400 + 8) << 2.
    let w = gic.set_prio(32, 0x1C, |_b, _o| 0xA0A0_A0A0).unwrap();
    assert_eq!(w, RegWrite { base: 0x3080_0000, offset: 0x1020, value: 0xA0A0_A01C });
    assert_eq!(gic.set_prio(200, 1, |_b, _o| 0).unwrap_err(), GicError::CtlrNumError);
    assert_eq!(gic.set_prio(9000, 1, |_b, _o| 0).unwrap_err(), GicError::CtlrNumError);
}

#[test]
fn gic_prio_value_only_touches_one_byte() {
    assert_eq!(fgic_ipriorityr_value_mask(6), 0x00FF_0000);
    assert_eq!(prio_value(0x1122_3344, 3, 0x1FF), 0xFF22_3344);
    assert_eq!(prio_value(0x1122_3344, 0, 0x00), 0x1122_3300);
}

#[test]
fn gic_spi_routing_range() {
    let mut gic = Gic::default();
    assert_eq!(
        gic.set_spi_affinity_routing(31, SpiRoutingMode::SpiRoutingToAny, 0),
        Err(GicError::CtlrSetError)
    );
    assert_eq!(gic.set_spi_affinity_routing(32, SpiRoutingMode::SpiRoutingToSpecific, 0x100), Ok(()));
}
