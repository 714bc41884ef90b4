use std::cell::Cell;

use phytium_mci::mci::consts::MCIId;
use phytium_mci::mci_host::constants::{
    MCIHostBusWdith, MCIHostDataPacketFormat, MCIHostOperationVoltage, MCIHostResponseType,
    SDStatus,
};
use phytium_mci::mci_host::err::MCIHostError;
use phytium_mci::mci_host::mci_host_config::{
    MCIHostCardType, MCIHostConfig, MCIHostEndianMode, MCIHostType,
};
use phytium_mci::mci_host::mci_sdif::sdif_device::{
    card_bus_width_set, card_clock_set, card_detect_status_polling, card_int_enable_mask,
    convert_data_to_little_endian, covert_command_flags, covert_command_info, pre_command,
    response_check, sdif_desc_buffer_size, sdif_desc_num, switch_to_voltage, transfer_complete_events,
    transfer_data_return, transfer_wait_events, MCIDataDirection, MCIHostData,
};
use phytium_mci::mci_host::mci_sdif::sdif_transfer::{
    sdif_do_init, transfer_step, TransferAction, TransferEvent, TransferState,
};
use phytium_mci::osa::event::EventState;
use phytium_mci::mci_host::sd::status::SdStatus;

#[test]
fn default_host_config() {
    let c = MCIHostConfig::new();
    assert_eq!(c.host_id, MCIId::MCI1);
    assert_eq!(c.host_type, MCIHostType::SDIF);
    assert_eq!(c.card_type, MCIHostCardType::MicroSD);
    assert!(!c.enable_irq);
    assert!(c.enable_dma);
    assert_eq!(c.endian_mode, MCIHostEndianMode::Little);
    assert_eq!(c.max_trans_size, 512 * 1024);
    assert_eq!(c.def_block_size, 512);
    assert_eq!(c.card_clock, 50_000_000);
    assert!(!c.is_uhs_card);
    assert_eq!(sdif_desc_num(&c), 1024);
}

#[test]
fn sd_status_zero() {
    let s = SdStatus::new();
    assert_eq!(s, SdStatus::default());
    assert_eq!(s.bus_width, 0);
    assert_eq!(s.protected_size, 0);
    assert_eq!(s.uhs_au_size, 0);
}

#[test]
fn little_endian_msb_first_reverses_bytes() {
    let c = MCIHostConfig::new();
    let mut d = vec![0x1122_3344u32, 0xAABB_CCDD, 7];
    assert!(convert_data_to_little_endian(&mut d, 2, MCIHostDataPacketFormat::MSBFirst, &c).is_ok());
    assert_eq!(d, vec![0x4433_2211, 0xDDCC_BBAA, 7]);
    // Converting again restores the words.
    let _ = convert_data_to_little_endian(&mut d, 2, MCIHostDataPacketFormat::MSBFirst, &c);
    assert_eq!(d, vec![0x1122_3344, 0xAABB_CCDD, 7]);
}

#[test]
fn little_endian_lsb_first_keeps_words() {
    let c = MCIHostConfig::new();
    let mut d = vec![0x1122_3344u32];
    // Nothing is converted, so a word count beyond the buffer is harmless.
    assert!(convert_data_to_little_endian(&mut d, 10, MCIHostDataPacketFormat::LSBFirst, &c).is_ok());
    assert_eq!(d, vec![0x1122_3344]);
}

#[test]
fn half_word_big_endian_swaps_halves() {
    let mut c = MCIHostConfig::new();
    c.endian_mode = MCIHostEndianMode::HalfWordBig;
    let mut d = vec![0x1122_3344u32, 0x5566_7788];
    let _ = convert_data_to_little_endian(&mut d, 2, MCIHostDataPacketFormat::LSBFirst, &c);
    assert_eq!(d, vec![0x3344_1122, 0x7788_5566]);
}

#[test]
fn big_endian_conversions() {
    let mut c = MCIHostConfig::new();
    c.endian_mode = MCIHostEndianMode::Big;
    let mut d = vec![0x1122_3344u32, 0x5566_7788];
    let _ = convert_data_to_little_endian(&mut d, 1, MCIHostDataPacketFormat::LSBFirst, &c);
    assert_eq!(d, vec![0x4433_2211, 0x5566_7788]);
    let _ = convert_data_to_little_endian(&mut d, 2, MCIHostDataPacketFormat::MSBFirst, &c);
    assert_eq!(d, vec![0x4433_2211, 0x5566_7788]);
}

#[test]
fn command_flags() {
    // CMD0 without response: only the initialisation flag.
    assert_eq!(covert_command_flags(0, 0, MCIHostResponseType::NoResponse, None), 0x2);
    // CMD2 with R2: response, long response, CRC.
    assert_eq!(covert_command_flags(2, 0, MCIHostResponseType::R2, None), 0x4 | 0x8 | 0x10);
    // ACMD41 with R3: response without CRC.
    assert_eq!(covert_command_flags(41, 0, MCIHostResponseType::R3, None), 0x4);
    // CMD11 with R1: voltage switch.
    assert_eq!(covert_command_flags(11, 0, MCIHostResponseType::R1, None), 0x4 | 0x10 | 0x400);
    // CMD18 read with R1.
    assert_eq!(
        covert_command_flags(18, 0, MCIHostResponseType::R1, Some(MCIDataDirection::Read)),
        0x4 | 0x10 | 0x20 | 0x80
    );
    // CMD25 write with R1.
    assert_eq!(
        covert_command_flags(25, 0, MCIHostResponseType::R1, Some(MCIDataDirection::Write)),
        0x4 | 0x10 | 0x20 | 0x40
    );
    // CMD15 and a CMD52 write to the I/O abort register abort.
    assert_eq!(covert_command_flags(15, 0, MCIHostResponseType::NoResponse, None), 0x800);
    assert_eq!(covert_command_flags(52, 6 << 9, MCIHostResponseType::R5, None), 0x800 | 0x4 | 0x10);
    assert_eq!(covert_command_flags(52, 7 << 9, MCIHostResponseType::R5, None), 0x4 | 0x10);
}

#[test]
fn command_info_takes_receive_buffer() {
    let mut data = Some(MCIHostData {
        block_size: 512,
        block_count: 4,
        rx_data: Some(vec![1, 2, 3]),
        tx_data: None,
    });
    let cmd = covert_command_info(18, 0x2000, MCIHostResponseType::R1, &mut data, 0x9000);
    assert_eq!(cmd.cmdidx(), 18);
    assert_eq!(cmd.cmdarg(), 0x2000);
    assert_eq!(cmd.flag(), 0x4 | 0x10 | 0x20 | 0x80);
    let od = cmd.get_data().unwrap();
    assert_eq!((od.blksz(), od.blkcnt(), od.datalen(), od.buf_dma()), (512, 4, 2048, 0x9000));
    assert_eq!(od.buf(), Some(&vec![1, 2, 3]));
    let d = data.unwrap();
    assert_eq!(d.rx_data, Some(vec![]));
    assert_eq!(d.tx_data, None);
}

#[test]
fn command_info_takes_transmit_buffer() {
    let mut data = Some(MCIHostData {
        block_size: 512,
        block_count: 1,
        rx_data: None,
        tx_data: Some(vec![9; 128]),
    });
    let cmd = covert_command_info(24, 0, MCIHostResponseType::R1, &mut data, 0);
    assert_eq!(cmd.flag(), 0x4 | 0x10 | 0x20 | 0x40);
    assert_eq!(cmd.get_data().unwrap().buf().unwrap().len(), 128);
    assert_eq!(data.unwrap().tx_data, Some(vec![]));
}

#[test]
fn command_info_without_data() {
    let mut data: Option<MCIHostData> = None;
    let cmd = covert_command_info(0, 0, MCIHostResponseType::NoResponse, &mut data, 0);
    assert_eq!(cmd.flag(), 0x2);
    assert!(cmd.get_data().is_none());
    assert!(data.is_none());
}

#[test]
fn pre_command_block_counts() {
    assert_eq!(pre_command(None, Some(4)), Err(MCIHostError::NoData));
    assert_eq!(pre_command(Some(18), None), Ok(None));
    assert_eq!(pre_command(Some(18), Some(4)), Ok(Some(4)));
    assert_eq!(pre_command(Some(25), Some(2)), Ok(Some(2)));
    assert_eq!(pre_command(Some(25), Some(1)), Ok(None));
    assert_eq!(pre_command(Some(17), Some(4)), Ok(None));
}

#[test]
fn voltage_switch() {
    let mut cur = MCIHostOperationVoltage::Voltage330V;
    assert_eq!(switch_to_voltage(MCIHostOperationVoltage::Voltage180V, &mut cur), Some(true));
    assert_eq!(cur, MCIHostOperationVoltage::Voltage180V);
    assert_eq!(switch_to_voltage(MCIHostOperationVoltage::Voltage300V, &mut cur), Some(false));
    assert_eq!(cur, MCIHostOperationVoltage::Voltage300V);
    assert_eq!(switch_to_voltage(MCIHostOperationVoltage::NoVoltage, &mut cur), None);
    assert_eq!(cur, MCIHostOperationVoltage::Voltage300V);
}

#[test]
fn bus_widths() {
    assert_eq!(card_bus_width_set(MCIHostBusWdith::Bit1), 1);
    assert_eq!(card_bus_width_set(MCIHostBusWdith::Bit4), 4);
    assert_eq!(card_bus_width_set(MCIHostBusWdith::Bit8), 8);
}

#[test]
fn clock_setting() {
    let calls = Cell::new(0u32);
    let mut cur = 400_000u32;
    assert_eq!(card_clock_set(&mut cur, 400_000, |_f| { calls.set(calls.get() + 1); true }), 400_000);
    assert_eq!(calls.get(), 0);
    assert_eq!(card_clock_set(&mut cur, 50_000_000, |_f| true), 50_000_000);
    assert_eq!(cur, 50_000_000);
    assert_eq!(card_clock_set(&mut cur, 25_000_000, |_f| false), 50_000_000);
    assert_eq!(cur, 50_000_000);
}

#[test]
fn card_detect_polling() {
    assert_eq!(
        card_detect_status_polling(SDStatus::Inserted, None, |_k| true, |_ms| {}),
        Err(MCIHostError::NoData)
    );
    assert_eq!(card_detect_status_polling(SDStatus::Inserted, Some(1), |_k| true, |_ms| {}), Ok(()));
    assert_eq!(card_detect_status_polling(SDStatus::Removed, Some(1), |_k| false, |_ms| {}), Ok(()));
    // The card shows up at reading 100, the last one that counts.
    assert_eq!(card_detect_status_polling(SDStatus::Inserted, Some(1), |k| k >= 100, |_ms| {}), Ok(()));
    assert_eq!(
        card_detect_status_polling(SDStatus::Inserted, Some(1), |k| k >= 101, |_ms| {}),
        Err(MCIHostError::Timeout)
    );
    let slept = Cell::new(0u32);
    let _ = card_detect_status_polling(SDStatus::Removed, Some(7), |k| k < 2, |ms| slept.set(slept.get() + ms));
    assert_eq!(slept.get(), 21);
    let tries = Cell::new(0u32);
    assert_eq!(
        card_detect_status_polling(SDStatus::Inserted, Some(5), |_k| { tries.set(tries.get() + 1); false }, |_ms| {}),
        Err(MCIHostError::Timeout)
    );
    assert_eq!(tries.get(), 101);
    let tries = Cell::new(0u32);
    assert_eq!(
        card_detect_status_polling(SDStatus::Inserted, Some(5), |_k| { tries.set(tries.get() + 1); tries.get() >= 3 }, |_ms| {}),
        Ok(())
    );
    assert_eq!(tries.get(), 3);
}

#[test]
fn card_interrupt_mask() {
    let mut c = MCIHostConfig::new();
    assert_eq!(card_int_enable_mask(&c), None);
    c.card_type = MCIHostCardType::SDIO;
    assert_eq!(card_int_enable_mask(&c), Some(1 << 16));
}

#[test]
fn transfer_events() {
    assert_eq!(transfer_complete_events(true), 0x5);
    assert_eq!(transfer_complete_events(false), 0x1);
    let mut ev = EventState::new();
    let _ = ev.osa_event_set(0x5);
    assert_eq!(transfer_wait_events(&mut ev, 0x5), Ok(()));
    assert_eq!(ev.osa_event_get(), 0);
    // Only the command finished: the data transfer timed out.
    let _ = ev.osa_event_set(0x1);
    assert_eq!(transfer_wait_events(&mut ev, 0x5), Err(MCIHostError::Timeout));
    assert_eq!(ev.osa_event_get(), 0);
    // An extra failure event also ends in a timeout.
    let _ = ev.osa_event_set(0x1 | 0x8);
    assert_eq!(transfer_wait_events(&mut ev, 0x1), Err(MCIHostError::Timeout));
    assert_eq!(ev.osa_event_get(), 0);
}

#[test]
fn response_errors() {
    assert_eq!(response_check(0x900, 0x0080_0000), Ok(()));
    assert_eq!(response_check(0x0080_0900, 0x0080_0000), Err(MCIHostError::Fail));
}

#[test]
fn read_buffer_comes_back() {
    let mut data = Some(MCIHostData {
        block_size: 512,
        block_count: 2,
        rx_data: Some(vec![5, 6]),
        tx_data: None,
    });
    let mut cmd = covert_command_info(18, 0, MCIHostResponseType::R1, &mut data, 0x100);
    assert_eq!(data.as_ref().unwrap().rx_data, Some(vec![]));
    transfer_data_return(&mut cmd, &mut data);
    assert_eq!(data.as_ref().unwrap().rx_data, Some(vec![5, 6]));
    assert!(cmd.get_data().unwrap().buf().is_none());
}

#[test]
fn write_buffer_comes_back_as_receive_data() {
    let mut data = Some(MCIHostData {
        block_size: 512,
        block_count: 1,
        rx_data: None,
        tx_data: Some(vec![1, 2, 3]),
    });
    let mut cmd = covert_command_info(24, 0, MCIHostResponseType::R1, &mut data, 0);
    transfer_data_return(&mut cmd, &mut data);
    let d = data.unwrap();
    assert_eq!(d.rx_data, Some(vec![1, 2, 3]));
    assert_eq!(d.tx_data, Some(vec![]));
}

#[test]
fn no_data_nothing_returned() {
    let mut data: Option<MCIHostData> = None;
    let mut cmd = covert_command_info(13, 0, MCIHostResponseType::R1, &mut data, 0);
    transfer_data_return(&mut cmd, &mut data);
    assert!(data.is_none());
    assert!(cmd.get_data().is_none());
}

#[test]
fn mode_configurations() {
    let c = MCIHostConfig::new_for_mode(false, true);
    assert_eq!(c.host_id, MCIId::MCI0);
    assert!(!c.enable_dma && c.enable_irq);
    assert_eq!(c.def_block_size, 512);
    let c = MCIHostConfig::new_for_mode(true, false);
    assert_eq!(c, MCIHostConfig::new());
}

#[test]
fn descriptor_sizes() {
    let mut c = MCIHostConfig::new();
    c.max_trans_size = usize::MAX;
    c.def_block_size = 1;
    assert_eq!(sdif_desc_num(&c), usize::MAX as u32);
    assert_eq!(sdif_desc_buffer_size(1024), 32 * 1024);
}

#[test]
fn transfer_steps_polling() {
    let begin = TransferEvent::Begin { cmd_index: Some(18), block_count: Some(4) };
    let (s, a) = transfer_step(TransferState::Idle, begin, true, false);
    assert_eq!((s, a), (TransferState::SettingBlockCount, TransferAction::SetBlockCount(4)));
    let (s, a) = transfer_step(s, TransferEvent::BlockCountSet(Ok(())), true, false);
    assert_eq!((s, a), (TransferState::Starting, TransferAction::StartTransfer { dma: true }));
    let (s, a) = transfer_step(s, TransferEvent::TransferStarted(true), true, false);
    assert_eq!((s, a), (TransferState::Waiting, TransferAction::WaitTransferEnd { dma: true }));
    let (s, a) = transfer_step(s, TransferEvent::TransferEnded(true), true, false);
    assert_eq!((s, a), (TransferState::ReadingResponse, TransferAction::ReadResponse));
    let (s, a) = transfer_step(s, TransferEvent::ResponseRead(true), true, false);
    assert_eq!((s, a), (TransferState::Done, TransferAction::Finish(Ok(()))));
}

#[test]
fn transfer_steps_failures() {
    let (_, a) = transfer_step(
        TransferState::Idle,
        TransferEvent::Begin { cmd_index: None, block_count: None },
        false,
        false,
    );
    assert_eq!(a, TransferAction::Finish(Err(MCIHostError::NoData)));
    let (s, _) = transfer_step(
        TransferState::Idle,
        TransferEvent::Begin { cmd_index: Some(17), block_count: Some(1) },
        false,
        true,
    );
    assert_eq!(s, TransferState::Starting);
    let (_, a) = transfer_step(TransferState::SettingBlockCount, TransferEvent::BlockCountSet(Err(MCIHostError::Fail)), false, false);
    assert_eq!(a, TransferAction::Finish(Err(MCIHostError::Fail)));
    let (_, a) = transfer_step(TransferState::Starting, TransferEvent::TransferStarted(false), false, false);
    assert_eq!(a, TransferAction::Finish(Err(MCIHostError::NoData)));
    let (_, a) = transfer_step(TransferState::Waiting, TransferEvent::TransferEnded(false), false, false);
    assert_eq!(a, TransferAction::Finish(Err(MCIHostError::NoData)));
    let (_, a) = transfer_step(TransferState::Waiting, TransferEvent::TransferEnded(false), false, true);
    assert_eq!(a, TransferAction::Finish(Err(MCIHostError::Timeout)));
    let (_, a) = transfer_step(TransferState::ReadingResponse, TransferEvent::ResponseRead(false), false, false);
    assert_eq!(a, TransferAction::Finish(Err(MCIHostError::Timeout)));
    let (s, a) = transfer_step(TransferState::ReadingResponse, TransferEvent::ResponseRead(true), false, true);
    assert_eq!((s, a), (TransferState::CheckingResponse, TransferAction::CheckResponse));
    let (_, a) = transfer_step(s, TransferEvent::ResponseChecked(Err(MCIHostError::Fail)), false, true);
    assert_eq!(a, TransferAction::Finish(Err(MCIHostError::Fail)));
}

#[test]
fn device_init_outcomes() {
    assert_eq!(sdif_do_init(false, true, || true, || true, || true), Err(MCIHostError::NoData));
    assert_eq!(sdif_do_init(true, true, || false, || true, || true), Ok(()));
    assert_eq!(sdif_do_init(true, true, || true, || false, || true), Err(MCIHostError::Fail));
    assert_eq!(sdif_do_init(true, true, || true, || true, || false), Err(MCIHostError::Fail));
    assert_eq!(sdif_do_init(true, false, || true, || true, || false), Ok(()));
}
