use phytium_mci::mci::consts::MCIIntrType;
use phytium_mci::mci::mci_cmd::MCICmdData;
use phytium_mci::mci::mci_data::MCIData;
use phytium_mci::mci::mci_intr::{
    card_detected, cmd_done, data_done, error_occur, fsdif_irq_classify, fsdif_irq_error,
    fsdif_irq_handle,
    interrupt_mask_get, interrupt_mask_offset, interrupt_mask_set, IrqDisposition,
};
use phytium_mci::mci::regs::{
    MCI_DMAC_INT_EN_OFFSET, MCI_DMAC_STATUS_DU, MCI_INT_MASK_OFFSET, MCI_RAW_INTS_CMD_BIT,
    MCI_RAW_INTS_CMD_ERR_INTS_MASK, MCI_RAW_INTS_DCRC_BIT, MCI_RAW_INTS_DTO_BIT,
    MCI_RAW_INTS_RE_BIT, MCI_RAW_INTS_RTO_BIT, MCI_RAW_INTS_SDIO_BIT,
};
use phytium_mci::osa::consts::{
    SDMMC_OSA_EVENT_CARD_INSERTED, SDMMC_OSA_EVENT_TRANSFER_CMD_FAIL,
    SDMMC_OSA_EVENT_TRANSFER_CMD_SUCCESS, SDMMC_OSA_EVENT_TRANSFER_DATA_FAIL,
    SDMMC_OSA_EVENT_TRANSFER_DATA_SUCCESS,
};
use phytium_mci::osa::event::EventState;

#[test]
fn mask_register_per_source() {
    assert_eq!(interrupt_mask_offset(MCIIntrType::GeneralIntr), MCI_INT_MASK_OFFSET);
    assert_eq!(interrupt_mask_offset(MCIIntrType::DmaIntr), MCI_DMAC_INT_EN_OFFSET);
    assert_eq!(interrupt_mask_get(MCIIntrType::DmaIntr, |o| o + 1), MCI_DMAC_INT_EN_OFFSET + 1);
}

#[test]
fn mask_enable_and_disable() {
    let (off, v) = interrupt_mask_set(MCIIntrType::GeneralIntr, 0x10000, true, |_o| 0x0000_00F0);
    assert_eq!((off, v), (0x24, 0x0001_00F0));
    let (off, v) = interrupt_mask_set(MCIIntrType::DmaIntr, 0x30, false, |_o| 0x0000_00F0);
    assert_eq!((off, v), (0x94, 0x0000_0000));
    // Bits the register does not define are dropped.
    let (_, v) = interrupt_mask_set(MCIIntrType::GeneralIntr, 0x8000_0000, true, |_o| 0x0004_0001);
    assert_eq!(v, 0x1);
    let (_, v) = interrupt_mask_set(MCIIntrType::DmaIntr, 0x200, true, |_o| 0xFFFF_0000);
    assert_eq!(v, 0x200);
}

#[test]
fn cmd_and_card_events() {
    let mut ev = EventState::new();
    cmd_done(&mut ev);
    assert_eq!(ev.osa_event_get(), SDMMC_OSA_EVENT_TRANSFER_CMD_SUCCESS);
    card_detected(&mut ev);
    assert_eq!(ev.osa_event_get(), SDMMC_OSA_EVENT_TRANSFER_CMD_SUCCESS | SDMMC_OSA_EVENT_CARD_INSERTED);
}

#[test]
fn data_done_needs_dto() {
    let mut ev = EventState::new();
    data_done(&mut ev, MCI_RAW_INTS_DCRC_BIT, 0);
    assert_eq!(ev.osa_event_get(), 0);
    data_done(&mut ev, 0, 0x210);
    assert_eq!(ev.osa_event_get(), 0);
    data_done(&mut ev, MCI_RAW_INTS_DTO_BIT, 0);
    assert_eq!(ev.osa_event_get(), SDMMC_OSA_EVENT_TRANSFER_DATA_SUCCESS);
}

#[test]
fn error_occur_events() {
    let mut ev = EventState::new();
    error_occur(&mut ev, 0, 0);
    assert_eq!(ev.osa_event_get(), 0);
    error_occur(&mut ev, MCI_RAW_INTS_RTO_BIT, 0);
    assert_eq!(ev.osa_event_get(), SDMMC_OSA_EVENT_TRANSFER_CMD_FAIL);
    let mut ev = EventState::new();
    error_occur(&mut ev, 0, MCI_DMAC_STATUS_DU);
    assert_eq!(ev.osa_event_get(), SDMMC_OSA_EVENT_TRANSFER_DATA_FAIL);
    let mut ev = EventState::new();
    error_occur(&mut ev, MCI_RAW_INTS_RE_BIT | MCI_RAW_INTS_DCRC_BIT, 0);
    assert_eq!(
        ev.osa_event_get(),
        SDMMC_OSA_EVENT_TRANSFER_CMD_FAIL | SDMMC_OSA_EVENT_TRANSFER_DATA_FAIL
    );
}

#[test]
fn irq_classification() {
    assert_eq!(fsdif_irq_classify(0, 0), IrqDisposition::NoStatus);
    // Bits outside the interrupt and DMA status fields count as no status.
    assert_eq!(fsdif_irq_classify(0x8000_0000, 0), IrqDisposition::NoStatus);
    assert_eq!(fsdif_irq_classify(0, 0x1000), IrqDisposition::NoStatus);
    assert_eq!(fsdif_irq_classify(0x8000_0000, 0x1), IrqDisposition::Handle);
    assert_eq!(fsdif_irq_classify(MCI_RAW_INTS_CMD_BIT, 0), IrqDisposition::Handle);
    assert_eq!(fsdif_irq_classify(0, 0x1), IrqDisposition::Handle);
}

#[test]
fn irq_handle_cmd_and_data() {
    let mut ev = EventState::new();
    fsdif_irq_handle(&mut ev, MCI_RAW_INTS_CMD_BIT | MCI_RAW_INTS_DTO_BIT, 0, 0xFFFF_FFFF);
    assert_eq!(
        ev.osa_event_get(),
        SDMMC_OSA_EVENT_TRANSFER_CMD_SUCCESS | SDMMC_OSA_EVENT_TRANSFER_DATA_SUCCESS
    );
    let mut ev = EventState::new();
    fsdif_irq_handle(&mut ev, MCI_RAW_INTS_CMD_BIT, 0, 0);
    assert_eq!(ev.osa_event_get(), SDMMC_OSA_EVENT_TRANSFER_CMD_SUCCESS);
    let mut ev = EventState::new();
    fsdif_irq_handle(&mut ev, MCI_RAW_INTS_DTO_BIT, 0, 0);
    assert_eq!(ev.osa_event_get(), SDMMC_OSA_EVENT_TRANSFER_DATA_SUCCESS);
    let mut ev = EventState::new();
    fsdif_irq_handle(&mut ev, MCI_RAW_INTS_SDIO_BIT, 0, MCI_RAW_INTS_SDIO_BIT);
    assert_eq!(ev.osa_event_get(), 0);
}

#[test]
fn irq_handle_errors_need_full_error_mask() {
    // A single error bit is not enough to report a failure.
    let mut ev = EventState::new();
    fsdif_irq_handle(&mut ev, MCI_RAW_INTS_RTO_BIT, 0, 0);
    assert_eq!(ev.osa_event_get(), 0);
    // All command error bits together report both failures.
    let mut ev = EventState::new();
    fsdif_irq_handle(&mut ev, MCI_RAW_INTS_CMD_ERR_INTS_MASK, 0, 0);
    assert_eq!(
        ev.osa_event_get(),
        SDMMC_OSA_EVENT_TRANSFER_CMD_FAIL | SDMMC_OSA_EVENT_TRANSFER_DATA_FAIL
    );
}

#[test]
fn irq_handle_keeps_pending_events() {
    let mut ev = EventState::new();
    let _ = ev.osa_event_set(SDMMC_OSA_EVENT_CARD_INSERTED);
    fsdif_irq_handle(&mut ev, MCI_RAW_INTS_CMD_BIT, 0, 0);
    assert_eq!(ev.osa_event_get(), SDMMC_OSA_EVENT_CARD_INSERTED | SDMMC_OSA_EVENT_TRANSFER_CMD_SUCCESS);
}

#[test]
fn mci_data_accessors() {
    let mut d = MCIData::new();
    assert_eq!((d.blksz(), d.blkcnt(), d.datalen(), d.buf_dma()), (0, 0, 0, 0));
    assert!(d.buf().is_none());
    d.blksz_set(512);
    d.blkcnt_set(4);
    d.datalen_set(2048);
    d.buf_dma_set(0x8000);
    d.buf_set(Some(vec![1, 2, 3]));
    assert_eq!((d.blksz(), d.blkcnt(), d.datalen(), d.buf_dma()), (512, 4, 2048, 0x8000));
    assert_eq!(d.buf(), Some(&vec![1, 2, 3]));
    if let Some(b) = d.buf_mut() {
        b.push(4);
    }
    assert_eq!(d.buf_take(), Some(vec![1, 2, 3, 4]));
    assert!(d.buf().is_none());
}

#[test]
fn mci_cmd_data_accessors() {
    let mut c = MCICmdData::new();
    assert_eq!((c.cmdidx(), c.cmdarg(), c.flag()), (0, 0, 0));
    assert!(c.get_data().is_none());
    c.cmdidx_set(17);
    c.cmdarg_set(0x100);
    c.flag_set(0xA4);
    c.set_data(Some(MCIData::new()));
    assert_eq!((c.cmdidx(), c.cmdarg(), c.flag()), (17, 0x100, 0xA4));
    assert!(c.get_data().is_some());
}

#[test]
fn irq_error_condition() {
    assert!(!fsdif_irq_error(MCI_RAW_INTS_RTO_BIT, 0));
    assert!(fsdif_irq_error(MCI_RAW_INTS_CMD_ERR_INTS_MASK, 0));
    assert!(fsdif_irq_error(0, 0x4 | 0x10 | 0x20));
    assert!(!fsdif_irq_error(0, 0x10));
}
