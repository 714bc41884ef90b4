//! Operations of the SDIF host device.
//!
//! The device drives the controller registers and the card; what it decides
//! from the values it reads and the configuration stands here.  Hardware
//! actions that a decision waits on (setting the clock, checking the card
//! slot, sleeping) are handed in as closures.
use vstd::prelude::*;
use crate::mci::consts::{
    MCI_CMD_FLAG_ABORT, MCI_CMD_FLAG_EXP_DATA, MCI_CMD_FLAG_EXP_LONG_RESP, MCI_CMD_FLAG_EXP_RESP,
    MCI_CMD_FLAG_NEED_INIT, MCI_CMD_FLAG_NEED_RESP_CRC, MCI_CMD_FLAG_READ_DATA,
    MCI_CMD_FLAG_SWITCH_VOLTAGE, MCI_CMD_FLAG_WRITE_DATA,
};
use crate::mci::mci_cmd::MCICmdData;
use crate::mci::mci_data::MCIData;
use crate::mci::regs::MCI_INT_MASK_SDIO_BIT;
use crate::mci_host::constants::{
    MCIHostBusWdith, MCIHostDataPacketFormat, MCIHostOperationVoltage, MCIHostResponseType,
    SDStatus, MCI_HOST_CMD_GO_IDLE_STATE, MCI_HOST_CMD_GO_INACTIVE_STATE,
    MCI_HOST_CMD_READ_MULTIPLE_BLOCK, MCI_HOST_CMD_WRITE_MULTIPLE_BLOCK, MCI_SDIO_CCCR_IO_ABORT,
    MCI_SDIO_CMD_RW_IO_DIRECT,
};
use crate::mci_host::err::{MCIHostError, MCIHostStatus};
use crate::mci_host::mci_host_config::{MCIHostCardType, MCIHostConfig, MCIHostEndianMode};
use crate::mci_host::sd::consts::SD_CMD_VOLTAGE_SWITCH;
use crate::osa::consts::{
    SDMMC_OSA_EVENT_FLAG_AND, SDMMC_OSA_EVENT_TRANSFER_CMD_SUCCESS,
    SDMMC_OSA_EVENT_TRANSFER_DATA_SUCCESS,
};
use crate::osa::event::EventState;
use crate::tools::{lemma_swap_bytes_involutive, lemma_swap_half_words_involutive, spec_swap_bytes, spec_swap_half_words, swap_half_word_byte_sequence_u32,
    swap_word_byte_sequence_u32};

verus! {

/// How the words of a received buffer are rearranged.
#[derive(Clone, Copy, PartialEq, Eq, Structural, Debug)]
pub enum WordConversion {
    /// Reverse the four bytes of each word.
    SwapBytes,
    /// Exchange the two half words of each word.
    SwapHalfWords,
    /// Leave the words as they are.
    Keep,
}

/// The conversion to little endian for the controller's byte order and the
/// packet's bit order: a little-endian controller reverses the bytes of
/// most-significant-first packets, a half-word big-endian one exchanges the
/// half words, a big-endian one reverses the bytes of
/// least-significant-first packets.
pub open spec fn spec_word_conversion(
    endian: MCIHostEndianMode,
    format: MCIHostDataPacketFormat,
) -> WordConversion {
    if endian == MCIHostEndianMode::Little && format == MCIHostDataPacketFormat::MSBFirst {
        WordConversion::SwapBytes
    } else if endian == MCIHostEndianMode::HalfWordBig {
        WordConversion::SwapHalfWords
    } else if endian == MCIHostEndianMode::Big && format == MCIHostDataPacketFormat::LSBFirst {
        WordConversion::SwapBytes
    } else {
        WordConversion::Keep
    }
}

/// One word after `conv`.
pub open spec fn spec_convert_word(conv: WordConversion, w: u32) -> u32 {
    match conv {
        WordConversion::SwapBytes => spec_swap_bytes(w),
        WordConversion::SwapHalfWords => spec_swap_half_words(w),
        WordConversion::Keep => w,
    }
}

/// Each conversion undoes itself: converting a converted word gives the
/// word back, so converting a buffer twice restores it.
pub proof fn lemma_convert_word_involutive(conv: WordConversion, w: u32)
    ensures
        spec_convert_word(conv, spec_convert_word(conv, w)) == w,
{
    lemma_swap_bytes_involutive(w);
    lemma_swap_half_words_involutive(w);
}

/// What converting to little endian does to a word `w`: a half-word
/// big-endian controller exchanges its two half words, whatever the bit
/// order of the packets; a little-endian controller with
/// most-significant-first packets, and a big-endian one with
/// least-significant-first packets, reverse its four bytes; the other two
/// combinations leave it as it is.
pub proof fn lemma_word_conversion_effect(
    endian: MCIHostEndianMode,
    format: MCIHostDataPacketFormat,
    w: u32,
)
    ensures
        ({
            let c = spec_convert_word(spec_word_conversion(endian, format), w);
            &&& endian == MCIHostEndianMode::HalfWordBig ==> c & 0xFFFF == w >> 16 && c >> 16 == w
                & 0xFFFF
            &&& (endian == MCIHostEndianMode::Little && format == MCIHostDataPacketFormat::MSBFirst)
                || (endian == MCIHostEndianMode::Big && format == MCIHostDataPacketFormat::LSBFirst)
                ==> c & 0xFF == w >> 24 && (c >> 8) & 0xFF == (w >> 16) & 0xFF && (c >> 16) & 0xFF
                == (w >> 8) & 0xFF && c >> 24 == w & 0xFF
            &&& (endian == MCIHostEndianMode::Little && format == MCIHostDataPacketFormat::LSBFirst)
                || (endian == MCIHostEndianMode::Big && format == MCIHostDataPacketFormat::MSBFirst)
                ==> c == w
        }),
{
    let h = spec_swap_half_words(w);
    let b = spec_swap_bytes(w);
    assert(h & 0xFFFF == w >> 16 && h >> 16 == w & 0xFFFF && b & 0xFF == w >> 24 && (b >> 8) & 0xFF
        == (w >> 16) & 0xFF && (b >> 16) & 0xFF == (w >> 8) & 0xFF && b >> 24 == w & 0xFF)
        by (bit_vector)
        requires
            h == ((w & 0x0000FFFF) << 16) | ((w & 0xFFFF0000) >> 16),
            b == ((w & 0x000000FF) << 24) | ((w & 0x0000FF00) << 8) | ((w & 0x00FF0000) >> 8) | ((w
                & 0xFF000000) >> 24),
    ;
}

/// The conversion that `convert_data_to_little_endian` applies.
pub fn word_conversion(endian: MCIHostEndianMode, format: MCIHostDataPacketFormat) -> (r:
    WordConversion)
    ensures
        r == spec_word_conversion(endian, format),
{
    if endian == MCIHostEndianMode::Little && format == MCIHostDataPacketFormat::MSBFirst {
        WordConversion::SwapBytes
    } else if endian == MCIHostEndianMode::HalfWordBig {
        WordConversion::SwapHalfWords
    } else if endian == MCIHostEndianMode::Big && format == MCIHostDataPacketFormat::LSBFirst {
        WordConversion::SwapBytes
    } else {
        WordConversion::Keep
    }
}

/// Converts the first `word_size` words of `data` to little endian as
/// `spec_word_conversion` says for the configured byte order; the words after
/// them stay.
pub fn convert_data_to_little_endian(
    data: &mut Vec<u32>,
    word_size: usize,
    format: MCIHostDataPacketFormat,
    config: &MCIHostConfig,
) -> (r: MCIHostStatus)
    requires
        spec_word_conversion(config.endian_mode, format) != WordConversion::Keep ==> word_size
            <= old(data)@.len(),
    ensures
        r is Ok,
        final(data)@.len() == old(data)@.len(),
        forall|i: int|
            0 <= i < old(data)@.len() ==> #[trigger] final(data)@[i] == if i < word_size {
                spec_convert_word(spec_word_conversion(config.endian_mode, format), old(data)@[i])
            } else {
                old(data)@[i]
            },
{
    let conv = word_conversion(config.endian_mode, format);
    if conv == WordConversion::Keep {
        return Ok(());
    }
    let ghost before = data@;
    let mut i: usize = 0;
    while i < word_size
        invariant
            conv != WordConversion::Keep,
            conv == spec_word_conversion(config.endian_mode, format),
            word_size <= before.len(),
            i <= word_size,
            data@.len() == before.len(),
            forall|j: int|
                0 <= j < before.len() ==> #[trigger] data@[j] == if j < i {
                    spec_convert_word(conv, before[j])
                } else {
                    before[j]
                },
        decreases word_size - i,
    {
        let val = data[i];
        let w = if conv == WordConversion::SwapBytes {
            swap_word_byte_sequence_u32(val)
        } else {
            swap_half_word_byte_sequence_u32(val)
        };
        data.set(i, w);
        i = i + 1;
    }
    Ok(())
}

/// Which buffer a data command moves.
#[derive(Clone, Copy, PartialEq, Eq, Structural, Debug)]
pub enum MCIDataDirection {
    /// The card sends data (receive buffer).
    Read,
    /// The card receives data (transmit buffer).
    Write,
}

/// Data part of a host transfer: block geometry and the receive or transmit
/// buffer.
#[derive(Debug, Clone)]
pub struct MCIHostData {
    pub block_size: usize,
    pub block_count: u32,
    pub rx_data: Option<Vec<u32>>,
    pub tx_data: Option<Vec<u32>>,
}

/// The direction of a transfer's data: a receive buffer makes it a read, a
/// transmit buffer a write.
pub open spec fn spec_data_direction(data: Option<MCIHostData>) -> Option<MCIDataDirection> {
    match data {
        Some(d) => if d.rx_data is Some {
            Some(MCIDataDirection::Read)
        } else {
            Some(MCIDataDirection::Write)
        },
        None => None,
    }
}

/// Whether the command aborts a transfer: CMD15, or an SDIO direct write to
/// the I/O abort register.
pub open spec fn spec_cmd_is_abort(index: u32, arg: u32) -> bool {
    index == MCI_HOST_CMD_GO_INACTIVE_STATE || (index == MCI_SDIO_CMD_RW_IO_DIRECT && (arg >> 9u32)
        & 0x1FFFF == MCI_SDIO_CCCR_IO_ABORT)
}

/// The flag bit `flag` when `cond` holds, no bit otherwise.
pub open spec fn flag_if(cond: bool, flag: u32) -> u32 {
    if cond {
        flag
    } else {
        0
    }
}

/// The controller flags of a command: initialisation for CMD0; abort (see
/// `spec_cmd_is_abort`); expected response unless there is none, long for R2,
/// CRC-checked unless R3 or R4; voltage switch for CMD11; data, read or write
/// by the direction of the data.
pub open spec fn spec_command_flags(
    index: u32,
    arg: u32,
    response_type: MCIHostResponseType,
    dir: Option<MCIDataDirection>,
) -> u32 {
    flag_if(index == MCI_HOST_CMD_GO_IDLE_STATE, MCI_CMD_FLAG_NEED_INIT) | flag_if(
        spec_cmd_is_abort(index, arg),
        MCI_CMD_FLAG_ABORT,
    ) | flag_if(response_type != MCIHostResponseType::NoResponse, MCI_CMD_FLAG_EXP_RESP) | flag_if(
        response_type == MCIHostResponseType::R2,
        MCI_CMD_FLAG_EXP_LONG_RESP,
    ) | flag_if(
        response_type != MCIHostResponseType::NoResponse && response_type != MCIHostResponseType::R3
            && response_type != MCIHostResponseType::R4,
        MCI_CMD_FLAG_NEED_RESP_CRC,
    ) | flag_if(index == SD_CMD_VOLTAGE_SWITCH, MCI_CMD_FLAG_SWITCH_VOLTAGE) | flag_if(
        dir is Some,
        MCI_CMD_FLAG_EXP_DATA,
    ) | flag_if(dir == Some(MCIDataDirection::Read), MCI_CMD_FLAG_READ_DATA) | flag_if(
        dir == Some(MCIDataDirection::Write),
        MCI_CMD_FLAG_WRITE_DATA,
    )
}

/// The controller flags of a command (see `spec_command_flags`).
pub fn covert_command_flags(
    index: u32,
    arg: u32,
    response_type: MCIHostResponseType,
    dir: Option<MCIDataDirection>,
) -> (r: u32)
    ensures
        r == spec_command_flags(index, arg, response_type, dir),
        r & MCI_CMD_FLAG_ABORT != 0 <==> (index == MCI_HOST_CMD_GO_INACTIVE_STATE || (index
            == MCI_SDIO_CMD_RW_IO_DIRECT && (arg >> 9u32) & 0x1FFFF == MCI_SDIO_CCCR_IO_ABORT)),
{
    proof {
        lemma_command_flags_bits(index, arg, response_type, dir);
    }
    let f1 = if index == MCI_HOST_CMD_GO_IDLE_STATE { MCI_CMD_FLAG_NEED_INIT } else { 0 };
    let f2 = if index == MCI_HOST_CMD_GO_INACTIVE_STATE || (index == MCI_SDIO_CMD_RW_IO_DIRECT
        && (arg >> 9 & 0x1FFFF) == MCI_SDIO_CCCR_IO_ABORT) {
        MCI_CMD_FLAG_ABORT
    } else {
        0
    };
    let has_resp = response_type != MCIHostResponseType::NoResponse;
    let f3 = if has_resp { MCI_CMD_FLAG_EXP_RESP } else { 0 };
    let f4 = if has_resp && response_type == MCIHostResponseType::R2 {
        MCI_CMD_FLAG_EXP_LONG_RESP
    } else {
        0
    };
    let f5 = if has_resp && response_type != MCIHostResponseType::R3 && response_type
        != MCIHostResponseType::R4 {
        MCI_CMD_FLAG_NEED_RESP_CRC
    } else {
        0
    };
    let f6 = if index == SD_CMD_VOLTAGE_SWITCH { MCI_CMD_FLAG_SWITCH_VOLTAGE } else { 0 };
    let f7 = if dir.is_some() { MCI_CMD_FLAG_EXP_DATA } else { 0 };
    let f8 = match dir {
        Some(MCIDataDirection::Read) => MCI_CMD_FLAG_READ_DATA,
        _ => 0,
    };
    let f9 = match dir {
        Some(MCIDataDirection::Write) => MCI_CMD_FLAG_WRITE_DATA,
        _ => 0,
    };
    f1 | f2 | f3 | f4 | f5 | f6 | f7 | f8 | f9
}

/// Each flag of a command is set exactly when its condition holds.
pub proof fn lemma_command_flags_bits(
    index: u32,
    arg: u32,
    response_type: MCIHostResponseType,
    dir: Option<MCIDataDirection>,
)
    ensures
        ({
            let r = spec_command_flags(index, arg, response_type, dir);
            &&& (r & MCI_CMD_FLAG_NEED_INIT != 0 <==> index == MCI_HOST_CMD_GO_IDLE_STATE)
            &&& (r & MCI_CMD_FLAG_ABORT != 0 <==> (index == MCI_HOST_CMD_GO_INACTIVE_STATE || (index
                == MCI_SDIO_CMD_RW_IO_DIRECT && (arg >> 9u32) & 0x1FFFF == MCI_SDIO_CCCR_IO_ABORT)))
            &&& (r & MCI_CMD_FLAG_EXP_RESP != 0 <==> response_type
                != MCIHostResponseType::NoResponse)
            &&& (r & MCI_CMD_FLAG_EXP_LONG_RESP != 0 <==> response_type == MCIHostResponseType::R2)
            &&& (r & MCI_CMD_FLAG_NEED_RESP_CRC != 0 <==> response_type
                != MCIHostResponseType::NoResponse && response_type != MCIHostResponseType::R3
                && response_type != MCIHostResponseType::R4)
            &&& (r & MCI_CMD_FLAG_SWITCH_VOLTAGE != 0 <==> index == SD_CMD_VOLTAGE_SWITCH)
            &&& (r & MCI_CMD_FLAG_EXP_DATA != 0 <==> dir is Some)
            &&& (r & MCI_CMD_FLAG_READ_DATA != 0 <==> dir == Some(MCIDataDirection::Read))
            &&& (r & MCI_CMD_FLAG_WRITE_DATA != 0 <==> dir == Some(MCIDataDirection::Write))
        }),
{
    let b1 = index == MCI_HOST_CMD_GO_IDLE_STATE;
    let b2 = index == MCI_HOST_CMD_GO_INACTIVE_STATE || (index == MCI_SDIO_CMD_RW_IO_DIRECT && (arg
        >> 9u32) & 0x1FFFF == MCI_SDIO_CCCR_IO_ABORT);
    let b3 = response_type != MCIHostResponseType::NoResponse;
    let b4 = response_type == MCIHostResponseType::R2;
    let b5 = response_type != MCIHostResponseType::NoResponse && response_type
        != MCIHostResponseType::R3 && response_type != MCIHostResponseType::R4;
    let b6 = index == SD_CMD_VOLTAGE_SWITCH;
    let b7 = dir is Some;
    let b8 = dir == Some(MCIDataDirection::Read);
    let b9 = dir == Some(MCIDataDirection::Write);
    let r = spec_command_flags(index, arg, response_type, dir);
    assert(r == (if b1 { 0x2u32 } else { 0u32 }) | (if b2 { 0x800u32 } else { 0u32 }) | (if b3 {
        0x4u32
    } else {
        0u32
    }) | (if b4 { 0x8u32 } else { 0u32 }) | (if b5 { 0x10u32 } else { 0u32 }) | (if b6 {
        0x400u32
    } else {
        0u32
    }) | (if b7 { 0x20u32 } else { 0u32 }) | (if b8 { 0x80u32 } else { 0u32 }) | (if b9 {
        0x40u32
    } else {
        0u32
    }));
    assert({
        &&& (r & 0x2 != 0 <==> b1)
        &&& (r & 0x800 != 0 <==> b2)
        &&& (r & 0x4 != 0 <==> b3)
        &&& (r & 0x8 != 0 <==> b4)
        &&& (r & 0x10 != 0 <==> b5)
        &&& (r & 0x400 != 0 <==> b6)
        &&& (r & 0x20 != 0 <==> b7)
        &&& (r & 0x80 != 0 <==> b8)
        &&& (r & 0x40 != 0 <==> b9)
    }) by (bit_vector)
        requires
            r == (if b1 { 0x2u32 } else { 0u32 }) | (if b2 { 0x800u32 } else { 0u32 }) | (if b3 {
                0x4u32
            } else {
                0u32
            }) | (if b4 { 0x8u32 } else { 0u32 }) | (if b5 { 0x10u32 } else { 0u32 }) | (if b6 {
                0x400u32
            } else {
                0u32
            }) | (if b7 { 0x20u32 } else { 0u32 }) | (if b8 { 0x80u32 } else { 0u32 }) | (if b9 {
                0x40u32
            } else {
                0u32
            }),
    ;
}

/// An SDIO direct read/write (CMD52) is flagged as an abort exactly when the
/// register address field of its argument (bits 9 to 25) names the I/O
/// abort register; the read/write flag, the function number and the data
/// bits play no part: two arguments with the same register address get the
/// same abort flag.
pub proof fn lemma_sdio_direct_abort_flag(
    arg: u32,
    response_type: MCIHostResponseType,
    dir: Option<MCIDataDirection>,
)
    ensures
        spec_command_flags(MCI_SDIO_CMD_RW_IO_DIRECT, arg, response_type, dir) & MCI_CMD_FLAG_ABORT
            != 0 <==> (arg >> 9u32) & 0x1FFFF == MCI_SDIO_CCCR_IO_ABORT,
        forall|other: u32|
            (other >> 9u32) & 0x1FFFF == (arg >> 9u32) & 0x1FFFF ==> ((#[trigger] spec_command_flags(
                MCI_SDIO_CMD_RW_IO_DIRECT,
                other,
                response_type,
                dir,
            ) & MCI_CMD_FLAG_ABORT != 0) <==> (spec_command_flags(
                MCI_SDIO_CMD_RW_IO_DIRECT,
                arg,
                response_type,
                dir,
            ) & MCI_CMD_FLAG_ABORT != 0)),
{
    lemma_command_flags_bits(MCI_SDIO_CMD_RW_IO_DIRECT, arg, response_type, dir);
    assert forall|other: u32|
        (other >> 9u32) & 0x1FFFF == (arg >> 9u32) & 0x1FFFF implies ((#[trigger] spec_command_flags(
            MCI_SDIO_CMD_RW_IO_DIRECT,
            other,
            response_type,
            dir,
        ) & MCI_CMD_FLAG_ABORT != 0) <==> (spec_command_flags(
            MCI_SDIO_CMD_RW_IO_DIRECT,
            arg,
            response_type,
            dir,
        ) & MCI_CMD_FLAG_ABORT != 0)) by {
        lemma_command_flags_bits(MCI_SDIO_CMD_RW_IO_DIRECT, other, response_type, dir);
    }
}

/// What `covert_command_info` does with transfer data `d`: the command data
/// `od` gets the receive buffer (or, when there is none, the transmit
/// buffer), the block geometry and the bus address `buf_dma`; the transfer
/// `fd` keeps its geometry and an empty buffer in place of the one given up.
pub open spec fn spec_covert_data(d: MCIHostData, od: MCIData, fd: MCIHostData, buf_dma: usize) -> bool {
    &&& od.spec_buf() == (if d.rx_data is Some { d.rx_data } else { d.tx_data })
    &&& od.spec_blksz() == d.block_size as u32
    &&& od.spec_blkcnt() == d.block_count
    &&& od.spec_datalen() == (d.block_size as u32) * d.block_count
    &&& od.spec_buf_dma() == buf_dma
    &&& fd.block_size == d.block_size
    &&& fd.block_count == d.block_count
    &&& if d.rx_data is Some {
        fd.rx_data matches Some(v) && v@.len() == 0 && fd.tx_data == d.tx_data
    } else {
        fd.tx_data matches Some(v) && v@.len() == 0 && fd.rx_data is None
    }
}

/// What `transfer_data_return` does with transfer data `d` and command data
/// `od`: a buffer in the command becomes the transfer's receive data
/// (`back`); without one the transfer stays as it was.
pub open spec fn spec_return_data(d: MCIHostData, od: MCIData, back: Option<MCIHostData>) -> bool {
    if od.spec_buf() is Some {
        back == Some(MCIHostData { rx_data: od.spec_buf(), ..d })
    } else {
        back == Some(d)
    }
}

/// Converts a host transfer into a controller command: index and argument
/// as given, the flags of `spec_command_flags`, and for a data transfer the
/// block geometry, the bus address `buf_dma` and the receive buffer (or, when
/// there is none, the transmit buffer), which the transfer gives up: an empty
/// buffer takes its place.
pub fn covert_command_info(
    index: u32,
    arg: u32,
    response_type: MCIHostResponseType,
    data: &mut Option<MCIHostData>,
    buf_dma: usize,
) -> (r: MCICmdData)
    requires
        *old(data) matches Some(d) ==> (d.rx_data is Some || d.tx_data is Some) && (d.block_size as u32)
            * d.block_count <= u32::MAX,
    ensures
        r.spec_cmdidx() == index,
        r.spec_cmdarg() == arg,
        r.spec_flag() == spec_command_flags(index, arg, response_type, spec_data_direction(*old(data))),
        *old(data) is None ==> r.spec_data() is None && *final(data) is None,
        *old(data) matches Some(d) ==> (r.spec_data() matches Some(od) && *final(data) matches Some(
            fd,
        ) && spec_covert_data(d, od, fd, buf_dma)),
{
    let dir = match data.as_ref() {
        Some(d) => if d.rx_data.is_some() {
            Some(MCIDataDirection::Read)
        } else {
            Some(MCIDataDirection::Write)
        },
        None => None,
    };
    let flag = covert_command_flags(index, arg, response_type, dir);
    let out_data = match data.take() {
        None => None,
        Some(mut in_data) => {
            let buf: Vec<u32> = if in_data.rx_data.is_some() {
                let b = in_data.rx_data.take().unwrap();
                in_data.rx_data = Some(Vec::new());
                b
            } else {
                let b = in_data.tx_data.take().unwrap();
                in_data.tx_data = Some(Vec::new());
                b
            };
            let blksz = in_data.block_size as u32;
            let mut out = MCIData::new();
            out.blksz_set(blksz);
            out.blkcnt_set(in_data.block_count);
            out.datalen_set(blksz * in_data.block_count);
            out.buf_dma_set(buf_dma);
            out.buf_set(Some(buf));
            *data = Some(in_data);
            Some(out)
        },
    };
    let mut out_trans = MCICmdData::new();
    out_trans.cmdidx_set(index);
    out_trans.cmdarg_set(arg);
    out_trans.set_data(out_data);
    out_trans.flag_set(flag);
    out_trans
}

/// The block count that must be announced to the card before a command, if
/// any: multi-block reads and writes of more than one block announce their
/// count.
pub open spec fn spec_pre_command_block_count(index: u32, block_count: Option<u32>) -> Option<u32> {
    match block_count {
        Some(c) => if (index == MCI_HOST_CMD_READ_MULTIPLE_BLOCK || index
            == MCI_HOST_CMD_WRITE_MULTIPLE_BLOCK) && c > 1 {
            Some(c)
        } else {
            None
        },
        None => None,
    }
}

/// Prepares a command of index `cmd_index` (none when the transfer has no
/// command) whose data, if any, has `block_count` blocks: a transfer without
/// command is refused; otherwise the result names the block count to announce
/// (see `spec_pre_command_block_count`).
pub fn pre_command(cmd_index: Option<u32>, block_count: Option<u32>) -> (r: Result<
    Option<u32>,
    MCIHostError,
>)
    ensures
        cmd_index is None ==> r == Err::<Option<u32>, MCIHostError>(MCIHostError::NoData),
        cmd_index matches Some(i) ==> r == Ok::<Option<u32>, MCIHostError>(
            spec_pre_command_block_count(i, block_count),
        ),
{
    let index = match cmd_index {
        Some(i) => i,
        None => return Err(MCIHostError::NoData),
    };
    let count = match block_count {
        Some(c) => c,
        None => return Ok(None),
    };
    if index == MCI_HOST_CMD_READ_MULTIPLE_BLOCK || index == MCI_HOST_CMD_WRITE_MULTIPLE_BLOCK {
        if count > 1 {
            return Ok(Some(count));
        }
    }
    Ok(None)
}

/// Whether a voltage switch to `voltage` selects 1.8 V signalling: no for
/// 3.3 V and 3.0 V, yes for 1.8 V; no valid target otherwise.
pub open spec fn spec_voltage_1_8v(voltage: MCIHostOperationVoltage) -> Option<bool> {
    match voltage {
        MCIHostOperationVoltage::Voltage300V => Some(false),
        MCIHostOperationVoltage::Voltage330V => Some(false),
        MCIHostOperationVoltage::Voltage180V => Some(true),
        _ => None,
    }
}

/// Switches the card voltage: a valid target becomes the current voltage and
/// the result says whether 1.8 V signalling is to be selected; an invalid
/// target changes nothing.
pub fn switch_to_voltage(voltage: MCIHostOperationVoltage, curr_voltage: &mut MCIHostOperationVoltage)
    -> (r: Option<bool>)
    ensures
        r == spec_voltage_1_8v(voltage),
        r is Some ==> *final(curr_voltage) == voltage,
        r is None ==> *final(curr_voltage) == *old(curr_voltage),
{
    match voltage {
        MCIHostOperationVoltage::Voltage300V => {
            *curr_voltage = voltage;
            Some(false)
        },
        MCIHostOperationVoltage::Voltage330V => {
            *curr_voltage = voltage;
            Some(false)
        },
        MCIHostOperationVoltage::Voltage180V => {
            *curr_voltage = voltage;
            Some(true)
        },
        _ => None,
    }
}

/// Number of data lines of a bus width.
pub open spec fn spec_bus_width_value(width: MCIHostBusWdith) -> u32 {
    match width {
        MCIHostBusWdith::Bit1 => 1,
        MCIHostBusWdith::Bit4 => 4,
        MCIHostBusWdith::Bit8 => 8,
    }
}

/// The value programmed for a bus width: its number of data lines.
pub fn card_bus_width_set(width: MCIHostBusWdith) -> (r: u32)
    ensures
        r == spec_bus_width_value(width),
{
    match width {
        MCIHostBusWdith::Bit1 => 1,
        MCIHostBusWdith::Bit4 => 4,
        MCIHostBusWdith::Bit8 => 8,
    }
}

/// Sets the card clock to `target_clock` with `clk_freq_set`, unless it runs
/// at that frequency already; the current frequency follows only a setting
/// that succeeded.  Returns the current frequency.
pub fn card_clock_set<F: Fn(u32) -> bool>(
    curr_clock_freq: &mut u32,
    target_clock: u32,
    clk_freq_set: F,
) -> (r: u32)
    requires
        clk_freq_set.requires((target_clock,)),
    ensures
        r == *final(curr_clock_freq),
        *old(curr_clock_freq) == target_clock ==> *final(curr_clock_freq) == target_clock,
        *final(curr_clock_freq) == target_clock || *final(curr_clock_freq) == *old(curr_clock_freq),
        *final(curr_clock_freq) != *old(curr_clock_freq) ==> clk_freq_set.ensures(
            (target_clock,),
            true,
        ),
        *final(curr_clock_freq) == *old(curr_clock_freq) && *old(curr_clock_freq) != target_clock
            ==> clk_freq_set.ensures((target_clock,), false),
{
    if *curr_clock_freq == target_clock {
        return *curr_clock_freq;
    }
    if clk_freq_set(target_clock) {
        *curr_clock_freq = target_clock;
    }
    *curr_clock_freq
}

/// Number of tries after the first before waiting for the card gives up.
pub const CARD_DETECT_RETRY_TIMES: usize = 100;

/// Whether a slot reading (`true`: a card is inserted) shows `want`.
pub open spec fn shows_status(inserted: bool, want: SDStatus) -> bool {
    (want == SDStatus::Inserted && inserted) || (want == SDStatus::Removed && !inserted)
}

/// The slot check `card_inserted` gives `s(k)` as its reading number `k`
/// (counted from 0).
pub open spec fn slot_readings_as<C: Fn(usize) -> bool>(card_inserted: C, s: spec_fn(usize) -> bool)
    -> bool {
    forall|k: usize, b: bool| #[trigger] card_inserted.ensures((k,), b) ==> b == s(k)
}

/// One of the first `n` slot readings `s` shows `want`.
pub open spec fn status_within(s: spec_fn(usize) -> bool, want: SDStatus, n: usize) -> bool {
    exists|k: usize| k < n && #[trigger] shows_status(s(k), want)
}

/// Waits until the slot shows `wait_card_status`: reading number `k` (from
/// 0) asks `card_inserted(k)` and then waits the debounce time with
/// `sleep_ms`; the wait succeeds at the first reading that shows the wanted
/// status and times out when the first `CARD_DETECT_RETRY_TIMES + 1`
/// readings do not.  Without card detection (no debounce time) it fails at
/// once.
pub fn card_detect_status_polling<C: Fn(usize) -> bool, S: Fn(u32)>(
    wait_card_status: SDStatus,
    cd_debounce_ms: Option<u32>,
    card_inserted: C,
    sleep_ms: S,
) -> (r: MCIHostStatus)
    requires
        forall|k: usize| k <= CARD_DETECT_RETRY_TIMES ==> card_inserted.requires((k,)),
        cd_debounce_ms matches Some(d) ==> sleep_ms.requires((d,)),
    ensures
        cd_debounce_ms is None <==> r == Err::<(), MCIHostError>(MCIHostError::NoData),
        r is Ok || r == Err::<(), MCIHostError>(MCIHostError::NoData) || r == Err::<(), MCIHostError>(
            MCIHostError::Timeout,
        ),
        cd_debounce_ms is Some ==> forall|s: spec_fn(usize) -> bool|
            #[trigger] slot_readings_as(card_inserted, s) ==> (r is Ok <==> status_within(
                s,
                wait_card_status,
                (CARD_DETECT_RETRY_TIMES + 1) as usize,
            )),
        r is Ok ==> exists|k: usize, b: bool|
            k <= CARD_DETECT_RETRY_TIMES && card_inserted.ensures((k,), b) && shows_status(
                b,
                wait_card_status,
            ),
        cd_debounce_ms is Some && (forall|k: usize, b: bool|
            card_inserted.ensures((k,), b) ==> shows_status(b, wait_card_status)) ==> r is Ok,
        cd_debounce_ms is Some && (forall|k: usize, b: bool|
            card_inserted.ensures((k,), b) ==> !shows_status(b, wait_card_status)) ==> r == Err::<
            (),
            MCIHostError,
        >(MCIHostError::Timeout),
{
    let debounce = match cd_debounce_ms {
        Some(d) => d,
        None => return Err(MCIHostError::NoData),
    };
    let mut count: usize = 0;
    loop
        invariant
            forall|k: usize| k <= CARD_DETECT_RETRY_TIMES ==> card_inserted.requires((k,)),
            cd_debounce_ms == Some(debounce),
            sleep_ms.requires((debounce,)),
            count <= CARD_DETECT_RETRY_TIMES,
            (forall|k: usize, b: bool|
                card_inserted.ensures((k,), b) ==> shows_status(b, wait_card_status)) ==> count == 0,
            forall|s: spec_fn(usize) -> bool|
                #[trigger] slot_readings_as(card_inserted, s) ==> forall|j: usize|
                    j < count ==> !#[trigger] shows_status(s(j), wait_card_status),
        decreases CARD_DETECT_RETRY_TIMES - count,
    {
        let is_card_inserted = card_inserted(count);
        sleep_ms(debounce);
        if (wait_card_status == SDStatus::Inserted && is_card_inserted) || (wait_card_status
            == SDStatus::Removed && !is_card_inserted) {
            proof {
                assert(shows_status(is_card_inserted, wait_card_status));
                assert forall|s: spec_fn(usize) -> bool|
                    #[trigger] slot_readings_as(card_inserted, s) implies status_within(
                        s,
                        wait_card_status,
                        (CARD_DETECT_RETRY_TIMES + 1) as usize,
                    ) by {
                    assert(s(count) == is_card_inserted);
                    assert(shows_status(s(count), wait_card_status));
                }
            }
            return Ok(());
        }
        proof {
            assert forall|s: spec_fn(usize) -> bool|
                #[trigger] slot_readings_as(card_inserted, s) implies forall|j: usize|
                    j < count + 1 ==> !#[trigger] shows_status(s(j), wait_card_status) by {
                assert(s(count) == is_card_inserted);
            }
        }
        if count == CARD_DETECT_RETRY_TIMES {
            proof {
                assert forall|s: spec_fn(usize) -> bool|
                    #[trigger] slot_readings_as(card_inserted, s) implies !status_within(
                        s,
                        wait_card_status,
                        (CARD_DETECT_RETRY_TIMES + 1) as usize,
                    ) by {
                    assert(forall|j: usize|
                        j < count + 1 ==> !#[trigger] shows_status(s(j), wait_card_status));
                }
            }
            return Err(MCIHostError::Timeout);
        }
        count += 1;
    }
}

/// The controller interrupt bits that card interrupts switch: the SDIO bit
/// for SDIO cards, none for other cards.
pub fn card_int_enable_mask(config: &MCIHostConfig) -> (r: Option<u32>)
    ensures
        config.card_type == MCIHostCardType::SDIO ==> r == Some(MCI_INT_MASK_SDIO_BIT),
        config.card_type != MCIHostCardType::SDIO ==> r is None,
{
    if config.card_type == MCIHostCardType::SDIO {
        Some(MCI_INT_MASK_SDIO_BIT)
    } else {
        None
    }
}

/// Number of DMA descriptors the device needs: one per default block of the
/// largest transfer, cut to 32 bits.
pub fn sdif_desc_num(config: &MCIHostConfig) -> (r: u32)
    requires
        config.def_block_size > 0,
    ensures
        r == (config.max_trans_size / config.def_block_size) as u32,
{
    (config.max_trans_size / config.def_block_size) as u32
}

/// Size in bytes of one internal DMA descriptor: eight 32-bit words.
pub const FSDIF_IDMA_DESC_SIZE: usize = 32;

/// Size of the buffer that holds `desc_num` DMA descriptors.
pub fn sdif_desc_buffer_size(desc_num: usize) -> (r: usize)
    requires
        desc_num * FSDIF_IDMA_DESC_SIZE <= usize::MAX,
    ensures
        r == desc_num * FSDIF_IDMA_DESC_SIZE,
{
    FSDIF_IDMA_DESC_SIZE * desc_num
}

/// Events that end a transfer: command done, and data done when the command
/// moves data.
pub open spec fn spec_transfer_complete_events(has_data: bool) -> u32 {
    if has_data {
        SDMMC_OSA_EVENT_TRANSFER_CMD_SUCCESS | SDMMC_OSA_EVENT_TRANSFER_DATA_SUCCESS
    } else {
        SDMMC_OSA_EVENT_TRANSFER_CMD_SUCCESS
    }
}

/// The events that end a transfer (see `spec_transfer_complete_events`).
pub fn transfer_complete_events(has_data: bool) -> (r: u32)
    ensures
        r == spec_transfer_complete_events(has_data),
{
    if has_data {
        SDMMC_OSA_EVENT_TRANSFER_CMD_SUCCESS | SDMMC_OSA_EVENT_TRANSFER_DATA_SUCCESS
    } else {
        SDMMC_OSA_EVENT_TRANSFER_CMD_SUCCESS
    }
}

/// Checks the events reported for a transfer once the waiter was woken: the
/// transfer completed when the pending events are exactly `complete_events`
/// (and that set is not empty); otherwise it timed out.  Either way the
/// events read are cleared, which leaves no event pending.
pub fn transfer_wait_events(state: &mut EventState, complete_events: u32) -> (r: MCIHostStatus)
    ensures
        r is Ok <==> old(state)@ == complete_events && complete_events != 0,
        r is Err ==> r == Err::<(), MCIHostError>(MCIHostError::Timeout),
        final(state)@ == 0,
{
    let mut events: u32 = 0;
    let waited = state.osa_event_wait(complete_events, COMMAND_TIMEOUT, &mut events,
        SDMMC_OSA_EVENT_FLAG_AND);
    proof {
        let x = events;
        let c = complete_events;
        assert((x == c && (if x & 1 != 0 { x == c } else { x & c != 0 })) <==> (x == c && c != 0))
            by (bit_vector);
        assert(x & !x == 0) by (bit_vector);
    }
    let failed = waited.is_err() || events != complete_events;
    state.osa_event_clear(events);
    if failed {
        return Err(MCIHostError::Timeout);
    }
    Ok(())
}

/// Time a transfer may take, in milliseconds.
pub const COMMAND_TIMEOUT: u32 = 5000;

/// Whether a command response reports an error: a bit of `error_flags` is
/// set in its first word.
pub fn response_check(response0: u32, error_flags: u32) -> (r: MCIHostStatus)
    ensures
        r is Ok <==> response0 & error_flags == 0,
        r is Err ==> r == Err::<(), MCIHostError>(MCIHostError::Fail),
{
    if response0 & error_flags != 0 {
        return Err(MCIHostError::Fail);
    }
    Ok(())
}

/// Hands the buffer of a finished data command back to the transfer: the
/// buffer leaves the command and becomes the transfer's receive data.  A
/// transfer without data is left as it was.
pub fn transfer_data_return(cmd_data: &mut MCICmdData, data: &mut Option<MCIHostData>)
    requires
        *old(data) is Some ==> old(cmd_data).spec_data() is Some,
    ensures
        *old(data) is None ==> *final(data) is None && *final(cmd_data) == *old(cmd_data),
        *old(data) matches Some(d) ==> {
            &&& old(cmd_data).spec_data() matches Some(od)
            &&& final(cmd_data).spec_data() matches Some(fod)
            &&& fod.spec_buf() is None
            &&& fod.spec_blksz() == od.spec_blksz()
            &&& fod.spec_blkcnt() == od.spec_blkcnt()
            &&& fod.spec_datalen() == od.spec_datalen()
            &&& fod.spec_buf_dma() == od.spec_buf_dma()
            &&& final(cmd_data).spec_cmdidx() == old(cmd_data).spec_cmdidx()
            &&& final(cmd_data).spec_cmdarg() == old(cmd_data).spec_cmdarg()
            &&& final(cmd_data).spec_flag() == old(cmd_data).spec_flag()
            &&& spec_return_data(d, od, *final(data))
        },
{
    if data.is_none() {
        return;
    }
    let od = cmd_data.get_mut_data().unwrap();
    let rx = od.buf_take();
    match rx {
        Some(rx_data) => {
            let mut in_data = data.take().unwrap();
            in_data.rx_data = Some(rx_data);
            *data = Some(in_data);
        },
        None => {},
    }
}

/// A transfer gets back what it gave up: when the controller leaves the
/// command's data as `covert_command_info` made it, `transfer_data_return`
/// restores a read transfer exactly, and gives a write transfer its
/// transmit buffer back as receive data.
pub proof fn lemma_transfer_buffer_round_trip(
    d: MCIHostData,
    od: MCIData,
    mid: MCIHostData,
    buf_dma: usize,
    back: Option<MCIHostData>,
)
    requires
        spec_covert_data(d, od, mid, buf_dma),
        spec_return_data(mid, od, back),
    ensures
        d.rx_data is Some ==> back == Some(d),
        d.rx_data is None ==> (back matches Some(b) && b.rx_data == d.tx_data && b.block_size
            == d.block_size && b.block_count == d.block_count),
{
}

} // verus!
