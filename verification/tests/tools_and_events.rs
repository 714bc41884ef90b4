use phytium_mci::osa::consts::{
    SDMMC_OSA_EVENT_FLAG_AND, SDMMC_OSA_EVENT_TRANSFER_CMD_FAIL,
    SDMMC_OSA_EVENT_TRANSFER_CMD_SUCCESS, SDMMC_OSA_EVENT_TRANSFER_DATA_FAIL,
    SDMMC_OSA_EVENT_TRANSFER_DATA_SUCCESS,
};
use phytium_mci::osa::event::EventState;
use phytium_mci::tools::{swap_half_word_byte_sequence_u32, swap_word_byte_sequence_u32};

#[test]
fn swap_half_word_exchanges_halves() {
    assert_eq!(swap_half_word_byte_sequence_u32(0x1122_3344), 0x3344_1122);
    assert_eq!(swap_half_word_byte_sequence_u32(0), 0);
    assert_eq!(swap_half_word_byte_sequence_u32(0xFFFF_0000), 0x0000_FFFF);
}

#[test]
fn swap_word_reverses_bytes() {
    assert_eq!(swap_word_byte_sequence_u32(0x1122_3344), 0x4433_2211);
    assert_eq!(swap_word_byte_sequence_u32(0xDEAD_BEEF), 0xEFBE_ADDE);
    assert_eq!(swap_word_byte_sequence_u32(0x0000_00FF), 0xFF00_0000);
}

#[test]
fn swap_word_matches_std_swap_bytes() {
    for v in [0u32, 1, 0x1234_5678, 0x8000_0001, u32::MAX, 0x00FF_FF00] {
        assert_eq!(swap_word_byte_sequence_u32(v), v.swap_bytes());
    }
}

#[test]
fn swaps_are_involutions() {
    for v in [0u32, 0x1234_5678, 0xCAFE_BABE, u32::MAX] {
        assert_eq!(swap_word_byte_sequence_u32(swap_word_byte_sequence_u32(v)), v);
        assert_eq!(swap_half_word_byte_sequence_u32(swap_half_word_byte_sequence_u32(v)), v);
    }
}

#[test]
fn event_set_get_clear() {
    let mut ev = EventState::new();
    assert_eq!(ev.osa_event_get(), 0);
    assert!(ev.osa_event_set(SDMMC_OSA_EVENT_TRANSFER_DATA_SUCCESS).is_ok());
    assert!(ev.osa_event_set(SDMMC_OSA_EVENT_TRANSFER_DATA_FAIL).is_ok());
    assert_eq!(ev.osa_event_get(), 0x4 | 0x8);
    ev.osa_event_clear(SDMMC_OSA_EVENT_TRANSFER_DATA_SUCCESS);
    assert_eq!(ev.osa_event_get(), 0x8);
    ev.osa_event_clear(0xFFFF_FFFF);
    assert_eq!(ev.osa_event_get(), 0);
}

#[test]
fn event_set_twice_is_set_once() {
    let mut ev = EventState::default();
    let _ = ev.osa_event_set(SDMMC_OSA_EVENT_TRANSFER_CMD_FAIL);
    let once = ev.osa_event_get();
    let _ = ev.osa_event_set(SDMMC_OSA_EVENT_TRANSFER_CMD_FAIL);
    assert_eq!(ev.osa_event_get(), once);
}

#[test]
fn event_wait_any_of_requested() {
    let mut ev = EventState::new();
    let _ = ev.osa_event_set(SDMMC_OSA_EVENT_TRANSFER_DATA_SUCCESS);
    let mut event = 0u32;
    let r = ev.osa_event_wait(
        SDMMC_OSA_EVENT_TRANSFER_DATA_SUCCESS | SDMMC_OSA_EVENT_TRANSFER_DATA_FAIL,
        100,
        &mut event,
        SDMMC_OSA_EVENT_FLAG_AND,
    );
    assert!(r.is_ok());
    assert_eq!(event, SDMMC_OSA_EVENT_TRANSFER_DATA_SUCCESS);
}

#[test]
fn event_wait_fails_without_event() {
    let ev = EventState::new();
    let mut event = 7u32;
    let r = ev.osa_event_wait(SDMMC_OSA_EVENT_TRANSFER_DATA_SUCCESS, 100, &mut event, 0);
    assert_eq!(r, Err("event wait failed"));
    assert_eq!(event, 0);
}

#[test]
fn event_wait_with_and_bit_needs_exact_flags() {
    // The command-success event is bit 0, the same bit as the AND flag: the
    // flags read must then equal the requested set.
    let mut ev = EventState::new();
    let _ = ev.osa_event_set(SDMMC_OSA_EVENT_TRANSFER_CMD_SUCCESS);
    let mut event = 0u32;
    let want = SDMMC_OSA_EVENT_TRANSFER_CMD_SUCCESS | SDMMC_OSA_EVENT_TRANSFER_DATA_SUCCESS;
    assert!(ev.osa_event_wait(want, 0, &mut event, 0).is_err());
    let _ = ev.osa_event_set(SDMMC_OSA_EVENT_TRANSFER_DATA_SUCCESS);
    assert!(ev.osa_event_wait(want, 0, &mut event, 0).is_ok());
    assert_eq!(event, want);
}
