//! Interrupt decoding of the SDIF controller.
//!
//! The interrupt handler reads the raw interrupt status, the DMA status and
//! the interrupt mask, clears the status and turns what it read into transfer
//! events.  Reading and writing the registers is the caller's part; the
//! functions here decide, from the values read, what is written back and
//! which events are reported.
use vstd::prelude::*;
use crate::mci::consts::MCIIntrType;
use crate::mci::regs::{
    MCI_DMAC_INT_EN_AIS, MCI_DMAC_INT_EN_ALL_BITS, MCI_DMAC_INT_EN_DU, MCI_DMAC_INT_EN_OFFSET,
    MCI_INT_MASK_ALL_BITS, MCI_DMAC_STATUS_ALL_BITS,
    MCI_DMAC_STATUS_DMAC_ERR_INTS_MASK, MCI_INT_MASK_OFFSET, MCI_RAW_INTS_ALL_BITS,
    MCI_RAW_INTS_CMD_BIT, MCI_RAW_INTS_CMD_ERR_INTS_MASK, MCI_RAW_INTS_DCRC_BIT,
    MCI_RAW_INTS_DRTO_BIT, MCI_RAW_INTS_DTO_BIT, MCI_RAW_INTS_EBE_BIT, MCI_RAW_INTS_RCRC_BIT,
    MCI_RAW_INTS_RE_BIT, MCI_RAW_INTS_RTO_BIT, MCI_RAW_INTS_SBE_BCI_BIT,
};
use crate::osa::consts::{
    SDMMC_OSA_EVENT_CARD_INSERTED, SDMMC_OSA_EVENT_TRANSFER_CMD_FAIL,
    SDMMC_OSA_EVENT_TRANSFER_CMD_SUCCESS, SDMMC_OSA_EVENT_TRANSFER_DATA_FAIL,
    SDMMC_OSA_EVENT_TRANSFER_DATA_SUCCESS,
};
use crate::osa::event::EventState;

verus! {

/// Offset of the mask register of an interrupt source.
pub open spec fn spec_interrupt_mask_offset(tp: MCIIntrType) -> u32 {
    match tp {
        MCIIntrType::GeneralIntr => MCI_INT_MASK_OFFSET,
        MCIIntrType::DmaIntr => MCI_DMAC_INT_EN_OFFSET,
    }
}

/// The mask register that holds the interrupt mask of `tp`: the interrupt
/// mask register for controller interrupts, the DMA interrupt enable register
/// for DMA interrupts.
pub fn interrupt_mask_offset(tp: MCIIntrType) -> (r: u32)
    ensures
        r == spec_interrupt_mask_offset(tp),
{
    match tp {
        MCIIntrType::GeneralIntr => MCI_INT_MASK_OFFSET,
        MCIIntrType::DmaIntr => MCI_DMAC_INT_EN_OFFSET,
    }
}

/// The new value of an interrupt mask: the bits of `set_mask` are set when
/// `enable`, cleared otherwise; the other bits keep their value.
pub open spec fn spec_interrupt_mask_update(mask: u32, set_mask: u32, enable: bool) -> u32 {
    if enable {
        mask | set_mask
    } else {
        mask & !set_mask
    }
}

/// The interrupt mask of source `tp`, read with `read(offset)` from its mask
/// register.
pub fn interrupt_mask_get<R: Fn(u32) -> u32>(tp: MCIIntrType, read: R) -> (r: u32)
    requires
        forall|o: u32| read.requires((o,)),
    ensures
        read.ensures((spec_interrupt_mask_offset(tp),), r),
{
    let offset = interrupt_mask_offset(tp);
    read(offset)
}

/// The bits that the mask register of `tp` defines; a value written there
/// keeps only these.
pub open spec fn spec_interrupt_mask_valid_bits(tp: MCIIntrType) -> u32 {
    match tp {
        MCIIntrType::GeneralIntr => MCI_INT_MASK_ALL_BITS,
        MCIIntrType::DmaIntr => MCI_DMAC_INT_EN_ALL_BITS,
    }
}

/// Enables (or disables) the interrupts `set_mask` of source `tp`: reads the
/// mask with `read(offset)` and returns the register offset and the new mask
/// value to write there (see `spec_interrupt_mask_update`), cut down to the
/// bits that the register defines.
pub fn interrupt_mask_set<R: Fn(u32) -> u32>(tp: MCIIntrType, set_mask: u32, enable: bool, read: R)
    -> (r: (u32, u32))
    requires
        forall|o: u32| read.requires((o,)),
    ensures
        r.0 == spec_interrupt_mask_offset(tp),
        exists|v: u32|
            read.ensures((r.0,), v) && r.1 == spec_interrupt_mask_update(v, set_mask, enable)
                & spec_interrupt_mask_valid_bits(tp),
{
    let mask = interrupt_mask_get(tp, read);
    let offset = interrupt_mask_offset(tp);
    let valid = match tp {
        MCIIntrType::GeneralIntr => MCI_INT_MASK_ALL_BITS,
        MCIIntrType::DmaIntr => MCI_DMAC_INT_EN_ALL_BITS,
    };
    let value = if enable {
        (mask | set_mask) & valid
    } else {
        (mask & !set_mask) & valid
    };
    assert(read.ensures((offset,), mask) && value == spec_interrupt_mask_update(mask, set_mask, enable)
        & spec_interrupt_mask_valid_bits(tp));
    (offset, value)
}

/// Enabling interrupts and then disabling the same ones leaves the mask with
/// them cleared and every other bit as before; enabling or disabling never
/// touches a bit outside `set_mask`.
pub proof fn lemma_interrupt_mask_update(mask: u32, set_mask: u32, bit: u32)
    requires
        bit < 32,
    ensures
        spec_interrupt_mask_update(spec_interrupt_mask_update(mask, set_mask, true), set_mask, false)
            == mask & !set_mask,
        (set_mask >> bit) & 1 == 0 ==> (spec_interrupt_mask_update(mask, set_mask, true) >> bit) & 1
            == (mask >> bit) & 1,
        (set_mask >> bit) & 1 == 0 ==> (spec_interrupt_mask_update(mask, set_mask, false) >> bit) & 1
            == (mask >> bit) & 1,
{
    assert((mask | set_mask) & !set_mask == mask & !set_mask) by (bit_vector);
    assert((set_mask >> bit) & 1 == 0 ==> ((mask | set_mask) >> bit) & 1 == (mask >> bit) & 1)
        by (bit_vector);
    assert((set_mask >> bit) & 1 == 0 ==> ((mask & !set_mask) >> bit) & 1 == (mask >> bit) & 1)
        by (bit_vector);
}

/// Raw interrupt bits that `data_done` inspects.
pub open spec fn data_check_bits() -> u32 {
    MCI_RAW_INTS_DTO_BIT | MCI_RAW_INTS_RCRC_BIT | MCI_RAW_INTS_DCRC_BIT | MCI_RAW_INTS_RE_BIT
        | MCI_RAW_INTS_DRTO_BIT | MCI_RAW_INTS_EBE_BIT | MCI_RAW_INTS_SBE_BCI_BIT
        | MCI_RAW_INTS_RTO_BIT
}

/// Events that a data-done interrupt with raw status `status` and DMA status
/// `dmac_status` reports: data success when one inspected bit is set and the
/// data-transfer-over bit is among them.
pub open spec fn data_done_events(status: u32, dmac_status: u32) -> u32 {
    let check_status = status & data_check_bits();
    let check_dmac = dmac_status & (MCI_DMAC_INT_EN_AIS | MCI_DMAC_INT_EN_DU);
    if check_status | check_dmac != 0 && check_status & MCI_RAW_INTS_DTO_BIT != 0 {
        SDMMC_OSA_EVENT_TRANSFER_DATA_SUCCESS
    } else {
        0
    }
}

/// Events that an error interrupt reports: command failure on a response
/// error or response timeout; data failure on an unavailable DMA descriptor
/// or a data or response CRC error.
pub open spec fn error_events(status: u32, dmac_status: u32) -> u32 {
    (if status & MCI_RAW_INTS_RE_BIT != 0 || status & MCI_RAW_INTS_RTO_BIT != 0 {
        SDMMC_OSA_EVENT_TRANSFER_CMD_FAIL
    } else {
        0
    }) | (if dmac_status & MCI_DMAC_INT_EN_DU != 0 || status & MCI_RAW_INTS_DCRC_BIT != 0
        || status & MCI_RAW_INTS_RCRC_BIT != 0 {
        SDMMC_OSA_EVENT_TRANSFER_DATA_FAIL
    } else {
        0
    })
}

/// Whether all bits of `mask` are set in `value`.
pub open spec fn contains_all(value: u32, mask: u32) -> bool {
    value & mask == mask
}

/// Events that the interrupt handler reports for raw status `events` and DMA
/// status `dmac_events` once it decided to handle them.
pub open spec fn irq_events(events: u32, dmac_events: u32) -> u32 {
    let err = if contains_all(dmac_events, MCI_DMAC_STATUS_DMAC_ERR_INTS_MASK)
        || contains_all(events, MCI_RAW_INTS_CMD_ERR_INTS_MASK) {
        error_events(events, dmac_events)
    } else {
        0
    };
    let has_dto = contains_all(events, MCI_RAW_INTS_DTO_BIT);
    let has_cmd = contains_all(events, MCI_RAW_INTS_CMD_BIT);
    let done = if has_dto && has_cmd {
        SDMMC_OSA_EVENT_TRANSFER_CMD_SUCCESS | data_done_events(events, dmac_events)
    } else if has_cmd {
        SDMMC_OSA_EVENT_TRANSFER_CMD_SUCCESS
    } else if has_dto {
        data_done_events(events, dmac_events)
    } else {
        0
    };
    err | done
}

/// What the interrupt handler does with the status it read.
#[derive(Clone, Copy, PartialEq, Eq, Structural, Debug)]
pub enum IrqDisposition {
    /// No interrupt bit is set: write the status back and leave.
    NoStatus,
    /// Nothing to handle: write the status back and leave.
    NoAction,
    /// Clear the status and report the events of `fsdif_irq_handle`.
    Handle,
}

/// The disposition of an interrupt with raw status `events` and DMA status
/// `dmac_events`.
pub open spec fn spec_irq_disposition(events: u32, dmac_events: u32) -> IrqDisposition {
    if events & MCI_RAW_INTS_ALL_BITS == 0 && dmac_events & MCI_DMAC_STATUS_ALL_BITS == 0 {
        IrqDisposition::NoStatus
    } else if events == 0 && dmac_events & 0x1FFF == 0 {
        IrqDisposition::NoAction
    } else {
        IrqDisposition::Handle
    }
}

/// The status registers the interrupt handler writes.
#[derive(Clone, Copy, PartialEq, Eq, Structural, Debug)]
pub enum MciStatusReg {
    /// The raw interrupt status register (writing a bit clears it).
    RawInts,
    /// The DMA status register (writing a bit clears it).
    DmacStatus,
    /// The temporary interrupt register.
    IrqTemp,
}

/// A write of `value` to the status register `reg`.
#[derive(Clone, Copy, PartialEq, Eq, Structural, Debug)]
pub struct MciRegWrite {
    pub reg: MciStatusReg,
    pub value: u32,
}

/// The writes the handler makes once it has read raw status `events` and
/// DMA status `dmac_events`: with no status it writes both back; otherwise
/// it first writes 0 to the temporary register, and with nothing to handle
/// then writes both back.
pub open spec fn spec_irq_status_writes(events: u32, dmac_events: u32) -> Seq<MciRegWrite> {
    match spec_irq_disposition(events, dmac_events) {
        IrqDisposition::NoStatus => seq![
            MciRegWrite { reg: MciStatusReg::RawInts, value: events },
            MciRegWrite { reg: MciStatusReg::DmacStatus, value: dmac_events },
        ],
        IrqDisposition::NoAction => seq![
            MciRegWrite { reg: MciStatusReg::IrqTemp, value: 0 },
            MciRegWrite { reg: MciStatusReg::RawInts, value: events },
            MciRegWrite { reg: MciStatusReg::DmacStatus, value: dmac_events },
        ],
        IrqDisposition::Handle => seq![MciRegWrite { reg: MciStatusReg::IrqTemp, value: 0 }],
    }
}

/// The writes the handler makes right after reading the status (see
/// `spec_irq_status_writes`).
pub fn fsdif_irq_status_writes(events: u32, dmac_events: u32) -> (r: Vec<MciRegWrite>)
    ensures
        r@ == spec_irq_status_writes(events, dmac_events),
{
    let mut writes: Vec<MciRegWrite> = Vec::new();
    let disposition = fsdif_irq_classify(events, dmac_events);
    if disposition != IrqDisposition::NoStatus {
        writes.push(MciRegWrite { reg: MciStatusReg::IrqTemp, value: 0 });
    }
    if disposition != IrqDisposition::Handle {
        writes.push(MciRegWrite { reg: MciStatusReg::RawInts, value: events });
        writes.push(MciRegWrite { reg: MciStatusReg::DmacStatus, value: dmac_events });
    }
    writes
}

/// The writes that clear a handled interrupt: the raw and DMA status read
/// again (`events_copy`, `dmac_events_copy`) are written back.
pub fn fsdif_irq_clear_writes(events_copy: u32, dmac_events_copy: u32) -> (r: Vec<MciRegWrite>)
    ensures
        r@ == seq![
            MciRegWrite { reg: MciStatusReg::RawInts, value: events_copy },
            MciRegWrite { reg: MciStatusReg::DmacStatus, value: dmac_events_copy },
        ],
{
    let mut writes: Vec<MciRegWrite> = Vec::new();
    writes.push(MciRegWrite { reg: MciStatusReg::RawInts, value: events_copy });
    writes.push(MciRegWrite { reg: MciStatusReg::DmacStatus, value: dmac_events_copy });
    writes
}

/// Reports that a card was inserted.
pub fn card_detected(state: &mut EventState)
    ensures
        final(state)@ == old(state)@ | SDMMC_OSA_EVENT_CARD_INSERTED,
{
    let _ = state.osa_event_set(SDMMC_OSA_EVENT_CARD_INSERTED);
}

/// Reports that a command finished.
pub fn cmd_done(state: &mut EventState)
    ensures
        final(state)@ == old(state)@ | SDMMC_OSA_EVENT_TRANSFER_CMD_SUCCESS,
{
    let _ = state.osa_event_set(SDMMC_OSA_EVENT_TRANSFER_CMD_SUCCESS);
}

/// Reports the end of a data transfer (see `data_done_events`).
pub fn data_done(state: &mut EventState, status: u32, dmac_status: u32)
    ensures
        final(state)@ == old(state)@ | data_done_events(status, dmac_status),
{
    let check_status = status & (MCI_RAW_INTS_DTO_BIT | MCI_RAW_INTS_RCRC_BIT
        | MCI_RAW_INTS_DCRC_BIT | MCI_RAW_INTS_RE_BIT | MCI_RAW_INTS_DRTO_BIT
        | MCI_RAW_INTS_EBE_BIT | MCI_RAW_INTS_SBE_BCI_BIT | MCI_RAW_INTS_RTO_BIT);
    let check_dmac = dmac_status & (MCI_DMAC_INT_EN_AIS | MCI_DMAC_INT_EN_DU);
    if check_status | check_dmac != 0 {
        if check_status & MCI_RAW_INTS_DTO_BIT != 0 {
            let _ = state.osa_event_set(SDMMC_OSA_EVENT_TRANSFER_DATA_SUCCESS);
            return;
        }
    }
    proof {
        lemma_or_zero(old(state)@);
    }
}

/// Reports the failures of an error interrupt (see `error_events`).
pub fn error_occur(state: &mut EventState, status: u32, dmac_status: u32)
    ensures
        final(state)@ == old(state)@ | error_events(status, dmac_status),
{
    let ghost before = state@;
    let mut cmd_fail: u32 = 0;
    let mut data_fail: u32 = 0;
    if status & MCI_RAW_INTS_RE_BIT != 0 || status & MCI_RAW_INTS_RTO_BIT != 0 {
        let _ = state.osa_event_set(SDMMC_OSA_EVENT_TRANSFER_CMD_FAIL);
        cmd_fail = SDMMC_OSA_EVENT_TRANSFER_CMD_FAIL;
    }
    proof {
        lemma_or_zero(before);
    }
    assert(state@ == before | cmd_fail);
    if dmac_status & MCI_DMAC_INT_EN_DU != 0 || status & MCI_RAW_INTS_DCRC_BIT != 0
        || status & MCI_RAW_INTS_RCRC_BIT != 0 {
        let _ = state.osa_event_set(SDMMC_OSA_EVENT_TRANSFER_DATA_FAIL);
        data_fail = SDMMC_OSA_EVENT_TRANSFER_DATA_FAIL;
    }
    proof {
        lemma_or_zero(before | cmd_fail);
        lemma_or_assoc(before, cmd_fail, data_fail);
    }
}

/// Decides what the interrupt handler does with raw status `events` and DMA
/// status `dmac_events` (see `spec_irq_disposition`).
pub fn fsdif_irq_classify(events: u32, dmac_events: u32) -> (r: IrqDisposition)
    ensures
        r == spec_irq_disposition(events, dmac_events),
{
    if (events & MCI_RAW_INTS_ALL_BITS == 0) && (dmac_events & MCI_DMAC_STATUS_ALL_BITS == 0) {
        IrqDisposition::NoStatus
    } else if (events == 0) && (dmac_events & 0x1FFF == 0) {
        IrqDisposition::NoAction
    } else {
        IrqDisposition::Handle
    }
}

/// Whether a handled interrupt reports an error: every DMA error bit or
/// every command error bit is set.
pub fn fsdif_irq_error(events: u32, dmac_events: u32) -> (r: bool)
    ensures
        r == (contains_all(dmac_events, MCI_DMAC_STATUS_DMAC_ERR_INTS_MASK) || contains_all(
            events,
            MCI_RAW_INTS_CMD_ERR_INTS_MASK,
        )),
{
    (dmac_events & MCI_DMAC_STATUS_DMAC_ERR_INTS_MASK == MCI_DMAC_STATUS_DMAC_ERR_INTS_MASK) || (events
        & MCI_RAW_INTS_CMD_ERR_INTS_MASK == MCI_RAW_INTS_CMD_ERR_INTS_MASK)
}

/// Reports the events of a handled interrupt (see `irq_events`): errors
/// first, then command and data completion.  The SDIO interrupt needs no
/// report.
pub fn fsdif_irq_handle(state: &mut EventState, events: u32, dmac_events: u32, event_mask: u32)
    ensures
        final(state)@ == old(state)@ | irq_events(events, dmac_events),
{
    let ghost before = state@;
    let ghost mut err: u32 = 0;
    if (dmac_events & MCI_DMAC_STATUS_DMAC_ERR_INTS_MASK == MCI_DMAC_STATUS_DMAC_ERR_INTS_MASK)
        || (events & MCI_RAW_INTS_CMD_ERR_INTS_MASK == MCI_RAW_INTS_CMD_ERR_INTS_MASK) {
        error_occur(state, events, dmac_events);
        proof {
            err = error_events(events, dmac_events);
        }
    }
    proof {
        lemma_or_zero(before);
    }
    assert(state@ == before | err);
    let ghost mid = state@;
    let ghost mut done: u32 = 0;
    let has_dto = events & MCI_RAW_INTS_DTO_BIT == MCI_RAW_INTS_DTO_BIT;
    let has_cmd = events & MCI_RAW_INTS_CMD_BIT == MCI_RAW_INTS_CMD_BIT;
    if has_dto && has_cmd {
        cmd_done(state);
        data_done(state, events, dmac_events);
        proof {
            lemma_or_assoc(mid, SDMMC_OSA_EVENT_TRANSFER_CMD_SUCCESS,
                data_done_events(events, dmac_events));
            done = SDMMC_OSA_EVENT_TRANSFER_CMD_SUCCESS | data_done_events(events, dmac_events);
        }
    } else if has_cmd {
        cmd_done(state);
        proof {
            done = SDMMC_OSA_EVENT_TRANSFER_CMD_SUCCESS;
        }
    } else if has_dto {
        data_done(state, events, dmac_events);
        proof {
            done = data_done_events(events, dmac_events);
        }
    }
    proof {
        lemma_or_zero(mid);
        lemma_or_assoc(before, err, done);
    }
}

proof fn lemma_or_zero(x: u32)
    ensures
        x | 0 == x,
{
    assert(x | 0 == x) by (bit_vector);
}

proof fn lemma_or_assoc(x: u32, a: u32, b: u32)
    ensures
        (x | a) | b == x | (a | b),
{
    assert((x | a) | b == x | (a | b)) by (bit_vector);
}

/// A data-done interrupt reports data success exactly when the data transfer
/// over bit is set.
pub proof fn lemma_data_done_iff_dto(status: u32, dmac_status: u32)
    ensures
        data_done_events(status, dmac_status) == (if status & MCI_RAW_INTS_DTO_BIT != 0 {
            SDMMC_OSA_EVENT_TRANSFER_DATA_SUCCESS
        } else {
            0
        }),
{
    let check_status = status & data_check_bits();
    let check_dmac = dmac_status & (MCI_DMAC_INT_EN_AIS | MCI_DMAC_INT_EN_DU);
    assert(check_status & MCI_RAW_INTS_DTO_BIT != 0 <==> status & MCI_RAW_INTS_DTO_BIT != 0)
        by (bit_vector)
        requires
            check_status == status & data_check_bits(),
    ;
    assert(check_status & MCI_RAW_INTS_DTO_BIT != 0 ==> check_status | check_dmac != 0)
        by (bit_vector);
}

proof fn lemma_error_events_range(status: u32, dmac_status: u32)
    ensures
        error_events(status, dmac_status) & !15u32 == 0,
{
    let a: u32 = if status & MCI_RAW_INTS_RE_BIT != 0 || status & MCI_RAW_INTS_RTO_BIT != 0 {
        SDMMC_OSA_EVENT_TRANSFER_CMD_FAIL
    } else {
        0
    };
    let b: u32 = if dmac_status & MCI_DMAC_INT_EN_DU != 0 || status & MCI_RAW_INTS_DCRC_BIT != 0
        || status & MCI_RAW_INTS_RCRC_BIT != 0 {
        SDMMC_OSA_EVENT_TRANSFER_DATA_FAIL
    } else {
        0
    };
    assert((a | b) & !15u32 == 0) by (bit_vector)
        requires
            a == 0 || a == 2,
            b == 0 || b == 8,
    ;
}

/// The interrupt handler only reports the four transfer events.
pub proof fn lemma_irq_events_are_transfer_events(events: u32, dmac_events: u32)
    ensures
        irq_events(events, dmac_events) & !(SDMMC_OSA_EVENT_TRANSFER_CMD_SUCCESS
            | SDMMC_OSA_EVENT_TRANSFER_CMD_FAIL | SDMMC_OSA_EVENT_TRANSFER_DATA_SUCCESS
            | SDMMC_OSA_EVENT_TRANSFER_DATA_FAIL) == 0,
{
    lemma_error_events_range(events, dmac_events);
    let e = error_events(events, dmac_events);
    let d = data_done_events(events, dmac_events);
    let err: u32 = if contains_all(dmac_events, MCI_DMAC_STATUS_DMAC_ERR_INTS_MASK)
        || contains_all(events, MCI_RAW_INTS_CMD_ERR_INTS_MASK) {
        e
    } else {
        0
    };
    let has_dto = contains_all(events, MCI_RAW_INTS_DTO_BIT);
    let has_cmd = contains_all(events, MCI_RAW_INTS_CMD_BIT);
    let done: u32 = if has_dto && has_cmd {
        1u32 | d
    } else if has_cmd {
        1u32
    } else if has_dto {
        d
    } else {
        0
    };
    assert(d == 0 || d == 4);
    assert(done & !15u32 == 0) by (bit_vector)
        requires
            d == 0 || d == 4,
            done == 0 || done == 1 || done == d || done == 1u32 | d,
    ;
    assert(err & !15u32 == 0) by (bit_vector)
        requires
            e & !15u32 == 0,
            err == 0 || err == e,
    ;
    assert((err | done) & !(1u32 | 2u32 | 4u32 | 8u32) == 0) by (bit_vector)
        requires
            err & !15u32 == 0,
            done & !15u32 == 0,
    ;
}

/// Which events a handled interrupt reports, bit by bit, for raw status
/// `events` and DMA status `dmac_events`.  Failures are reported when the DMA
/// status holds every DMA error bit or the raw status every command error
/// bit: then a response error or response timeout is a command failure, and
/// an unavailable DMA descriptor or a data or response CRC error a data
/// failure (so a DMA error status, which includes the descriptor-unavailable
/// bit, always reports a data failure).  Command completion is reported with
/// the command-done bit, data completion with the data-transfer-over bit;
/// nothing else is reported.
pub proof fn lemma_irq_events_bits(events: u32, dmac_events: u32)
    ensures
        ({
            let r = irq_events(events, dmac_events);
            let failed = dmac_events & MCI_DMAC_STATUS_DMAC_ERR_INTS_MASK
                == MCI_DMAC_STATUS_DMAC_ERR_INTS_MASK || events & MCI_RAW_INTS_CMD_ERR_INTS_MASK
                == MCI_RAW_INTS_CMD_ERR_INTS_MASK;
            &&& (r & SDMMC_OSA_EVENT_TRANSFER_CMD_SUCCESS != 0 <==> events & MCI_RAW_INTS_CMD_BIT != 0)
            &&& (r & SDMMC_OSA_EVENT_TRANSFER_DATA_SUCCESS != 0 <==> events & MCI_RAW_INTS_DTO_BIT
                != 0)
            &&& (r & SDMMC_OSA_EVENT_TRANSFER_CMD_FAIL != 0 <==> failed && (events
                & MCI_RAW_INTS_RE_BIT != 0 || events & MCI_RAW_INTS_RTO_BIT != 0))
            &&& (r & SDMMC_OSA_EVENT_TRANSFER_DATA_FAIL != 0 <==> failed && (dmac_events
                & MCI_DMAC_INT_EN_DU != 0 || events & MCI_RAW_INTS_DCRC_BIT != 0 || events
                & MCI_RAW_INTS_RCRC_BIT != 0))
            &&& (dmac_events & MCI_DMAC_STATUS_DMAC_ERR_INTS_MASK == MCI_DMAC_STATUS_DMAC_ERR_INTS_MASK
                ==> r & SDMMC_OSA_EVENT_TRANSFER_DATA_FAIL != 0)
            &&& r & !15u32 == 0
        }),
{
    lemma_data_done_iff_dto(events, dmac_events);
    let r = irq_events(events, dmac_events);
    let e = error_events(events, dmac_events);
    let err: u32 = if contains_all(dmac_events, MCI_DMAC_STATUS_DMAC_ERR_INTS_MASK)
        || contains_all(events, MCI_RAW_INTS_CMD_ERR_INTS_MASK) {
        e
    } else {
        0u32
    };
    let d = data_done_events(events, dmac_events);
    let has_cmd = contains_all(events, MCI_RAW_INTS_CMD_BIT);
    let has_dto = contains_all(events, MCI_RAW_INTS_DTO_BIT);
    let done: u32 = if has_dto && has_cmd {
        1u32 | d
    } else if has_cmd {
        1u32
    } else if has_dto {
        d
    } else {
        0u32
    };
    assert(r == err | done);
    assert({
        let failed = dmac_events & MCI_DMAC_STATUS_DMAC_ERR_INTS_MASK
            == MCI_DMAC_STATUS_DMAC_ERR_INTS_MASK || events & MCI_RAW_INTS_CMD_ERR_INTS_MASK
            == MCI_RAW_INTS_CMD_ERR_INTS_MASK;
        &&& (r & 1u32 != 0 <==> events & MCI_RAW_INTS_CMD_BIT != 0)
        &&& (r & 4u32 != 0 <==> events & MCI_RAW_INTS_DTO_BIT != 0)
        &&& (r & 2u32 != 0 <==> failed && (events & MCI_RAW_INTS_RE_BIT != 0 || events
            & MCI_RAW_INTS_RTO_BIT != 0))
        &&& (r & 8u32 != 0 <==> failed && (dmac_events & MCI_DMAC_INT_EN_DU != 0 || events
            & MCI_RAW_INTS_DCRC_BIT != 0 || events & MCI_RAW_INTS_RCRC_BIT != 0))
        &&& (dmac_events & MCI_DMAC_STATUS_DMAC_ERR_INTS_MASK == MCI_DMAC_STATUS_DMAC_ERR_INTS_MASK
            ==> r & 8u32 != 0)
        &&& r & !15u32 == 0
    }) by (bit_vector)
        requires
            e == (if events & MCI_RAW_INTS_RE_BIT != 0 || events & MCI_RAW_INTS_RTO_BIT != 0 {
                2u32
            } else {
                0u32
            }) | (if dmac_events & MCI_DMAC_INT_EN_DU != 0 || events & MCI_RAW_INTS_DCRC_BIT != 0
                || events & MCI_RAW_INTS_RCRC_BIT != 0 {
                8u32
            } else {
                0u32
            }),
            err == (if dmac_events & MCI_DMAC_STATUS_DMAC_ERR_INTS_MASK
                == MCI_DMAC_STATUS_DMAC_ERR_INTS_MASK || events & MCI_RAW_INTS_CMD_ERR_INTS_MASK
                == MCI_RAW_INTS_CMD_ERR_INTS_MASK {
                e
            } else {
                0u32
            }),
            d == (if events & MCI_RAW_INTS_DTO_BIT != 0 { 4u32 } else { 0u32 }),
            has_cmd == (events & MCI_RAW_INTS_CMD_BIT == MCI_RAW_INTS_CMD_BIT),
            has_dto == (events & MCI_RAW_INTS_DTO_BIT == MCI_RAW_INTS_DTO_BIT),
            done == (if has_dto && has_cmd {
                1u32 | d
            } else if has_cmd {
                1u32
            } else if has_dto {
                d
            } else {
                0u32
            }),
            r == err | done,
    ;
}

/// A DMA error status (every bit of the DMA error mask set) is handled as an
/// error: the handler reports a data failure, whatever the raw status.
pub proof fn lemma_irq_dma_error_reports_data_fail(events: u32, dmac_events: u32)
    requires
        dmac_events & MCI_DMAC_STATUS_DMAC_ERR_INTS_MASK == MCI_DMAC_STATUS_DMAC_ERR_INTS_MASK,
    ensures
        irq_events(events, dmac_events) & SDMMC_OSA_EVENT_TRANSFER_DATA_FAIL != 0,
{
    lemma_irq_events_bits(events, dmac_events);
}

/// The second early exit of the handler is never taken: a status that passes
/// the first check always has a set DMA bit below bit 13 or a non-zero raw
/// status.
pub proof fn lemma_irq_no_action_unreachable(events: u32, dmac_events: u32)
    ensures
        spec_irq_disposition(events, dmac_events) != IrqDisposition::NoAction,
{
    assert(events == 0 && dmac_events & 0x1FFF == 0 ==> events & 0x1FFFF == 0 && dmac_events
        & 0x3FF == 0) by (bit_vector);
}

/// Reporting the events of an interrupt never clears an event that was
/// already pending.
pub proof fn lemma_irq_handle_keeps_pending(before: u32, events: u32, dmac_events: u32)
    ensures
        before & !(before | irq_events(events, dmac_events)) == 0,
{
    let i = irq_events(events, dmac_events);
    assert(before & !(before | i) == 0) by (bit_vector);
}

} // verus!
