//! The steps of a SDIF device transfer and of its initialisation.
//!
//! A transfer alternates hardware work (announcing a block count, starting
//! and finishing the command, reading the response) with decisions on the
//! outcome of that work.  `transfer_step` takes the state reached and the
//! outcome of the last action and gives the next state and action; the
//! caller performs the actions.
use vstd::prelude::*;
use crate::mci_host::constants::{MCI_HOST_CMD_READ_MULTIPLE_BLOCK, MCI_HOST_CMD_WRITE_MULTIPLE_BLOCK};
use crate::mci_host::err::{MCIHostError, MCIHostStatus};
use crate::mci_host::mci_sdif::sdif_device::{pre_command, spec_pre_command_block_count};

verus! {

/// Where a transfer stands.
#[derive(Clone, Copy, PartialEq, Eq, Structural, Debug)]
pub enum TransferState {
    /// Nothing done yet.
    Idle,
    /// The block count is being announced to the card.
    SettingBlockCount,
    /// The command is being started.
    Starting,
    /// The command and its data are in flight.
    Waiting,
    /// The response is being read.
    ReadingResponse,
    /// The response is being checked for error bits.
    CheckingResponse,
    /// The transfer is over.
    Done,
}

/// Outcome of the last action, handed to `transfer_step`.
#[derive(Clone, Copy, PartialEq, Eq, Debug)]
pub enum TransferEvent {
    /// The transfer begins: its command index (none without command) and the
    /// block count of its data (none without data).
    Begin { cmd_index: Option<u32>, block_count: Option<u32> },
    /// Result of announcing the block count.
    BlockCountSet(MCIHostStatus),
    /// Whether the command was started.
    TransferStarted(bool),
    /// Whether the command and its data finished.
    TransferEnded(bool),
    /// Whether the response was read.
    ResponseRead(bool),
    /// Result of checking the response for error bits.
    ResponseChecked(MCIHostStatus),
}

/// What the caller does next.
#[derive(Clone, Copy, PartialEq, Eq, Debug)]
pub enum TransferAction {
    /// Announce the block count to the card.
    SetBlockCount(u32),
    /// Convert the transfer into a controller command and start it, with DMA
    /// or programmed I/O.
    StartTransfer { dma: bool },
    /// Wait for the command and its data to finish.
    WaitTransferEnd { dma: bool },
    /// Hand back the data buffer and read the response.
    ReadResponse,
    /// Check the response for error bits.
    CheckResponse,
    /// The transfer is over with this result; on success the response is
    /// copied to the transfer.
    Finish(MCIHostStatus),
}

/// Whether `event` is the outcome of the action that `state` waits on.
pub open spec fn event_fits(state: TransferState, event: TransferEvent) -> bool {
    match (state, event) {
        (TransferState::Idle, TransferEvent::Begin { .. }) => true,
        (TransferState::SettingBlockCount, TransferEvent::BlockCountSet(_)) => true,
        (TransferState::Starting, TransferEvent::TransferStarted(_)) => true,
        (TransferState::Waiting, TransferEvent::TransferEnded(_)) => true,
        (TransferState::ReadingResponse, TransferEvent::ResponseRead(_)) => true,
        (TransferState::CheckingResponse, TransferEvent::ResponseChecked(_)) => true,
        _ => false,
    }
}

/// The next state and action of a transfer in DMA (`dma`) or programmed I/O
/// mode, with interrupt (`irq`) or polling completion:
/// - a transfer without command fails with `NoData`; one that must announce
///   its block count does so first and stops on a failure to;
/// - a command that does not start fails with `NoData`; one that does not
///   finish fails with `NoData` when polling and `Timeout` with interrupts;
/// - a response that cannot be read fails with `Timeout`;
/// - with interrupts the response is then checked, and its check is the
///   result; when polling the transfer succeeds.
pub open spec fn spec_transfer_step(
    state: TransferState,
    event: TransferEvent,
    dma: bool,
    irq: bool,
) -> (TransferState, TransferAction) {
    match event {
        TransferEvent::Begin { cmd_index, block_count } => match cmd_index {
            None => (TransferState::Done, TransferAction::Finish(Err(MCIHostError::NoData))),
            Some(i) => match spec_pre_command_block_count(i, block_count) {
                Some(c) => (TransferState::SettingBlockCount, TransferAction::SetBlockCount(c)),
                None => (TransferState::Starting, TransferAction::StartTransfer { dma }),
            },
        },
        TransferEvent::BlockCountSet(status) => match status {
            Ok(_) => (TransferState::Starting, TransferAction::StartTransfer { dma }),
            Err(e) => (TransferState::Done, TransferAction::Finish(Err(e))),
        },
        TransferEvent::TransferStarted(ok) => if ok {
            (TransferState::Waiting, TransferAction::WaitTransferEnd { dma })
        } else {
            (TransferState::Done, TransferAction::Finish(Err(MCIHostError::NoData)))
        },
        TransferEvent::TransferEnded(ok) => if ok {
            (TransferState::ReadingResponse, TransferAction::ReadResponse)
        } else if irq {
            (TransferState::Done, TransferAction::Finish(Err(MCIHostError::Timeout)))
        } else {
            (TransferState::Done, TransferAction::Finish(Err(MCIHostError::NoData)))
        },
        TransferEvent::ResponseRead(ok) => if !ok {
            (TransferState::Done, TransferAction::Finish(Err(MCIHostError::Timeout)))
        } else if irq {
            (TransferState::CheckingResponse, TransferAction::CheckResponse)
        } else {
            (TransferState::Done, TransferAction::Finish(Ok(())))
        },
        TransferEvent::ResponseChecked(status) => (TransferState::Done, TransferAction::Finish(
            status,
        )),
    }
}

/// One step of a transfer (see `spec_transfer_step`).
pub fn transfer_step(state: TransferState, event: TransferEvent, dma: bool, irq: bool) -> (r: (
    TransferState,
    TransferAction,
))
    requires
        event_fits(state, event),
    ensures
        r == spec_transfer_step(state, event, dma, irq),
{
    match event {
        TransferEvent::Begin { cmd_index, block_count } => match pre_command(cmd_index, block_count) {
            Err(e) => (TransferState::Done, TransferAction::Finish(Err(e))),
            Ok(Some(c)) => (TransferState::SettingBlockCount, TransferAction::SetBlockCount(c)),
            Ok(None) => (TransferState::Starting, TransferAction::StartTransfer { dma }),
        },
        TransferEvent::BlockCountSet(status) => match status {
            Ok(_) => (TransferState::Starting, TransferAction::StartTransfer { dma }),
            Err(e) => (TransferState::Done, TransferAction::Finish(Err(e))),
        },
        TransferEvent::TransferStarted(ok) => if ok {
            (TransferState::Waiting, TransferAction::WaitTransferEnd { dma })
        } else {
            (TransferState::Done, TransferAction::Finish(Err(MCIHostError::NoData)))
        },
        TransferEvent::TransferEnded(ok) => if ok {
            (TransferState::ReadingResponse, TransferAction::ReadResponse)
        } else if irq {
            (TransferState::Done, TransferAction::Finish(Err(MCIHostError::Timeout)))
        } else {
            (TransferState::Done, TransferAction::Finish(Err(MCIHostError::NoData)))
        },
        TransferEvent::ResponseRead(ok) => if !ok {
            (TransferState::Done, TransferAction::Finish(Err(MCIHostError::Timeout)))
        } else if irq {
            (TransferState::CheckingResponse, TransferAction::CheckResponse)
        } else {
            (TransferState::Done, TransferAction::Finish(Ok(())))
        },
        TransferEvent::ResponseChecked(status) => (TransferState::Done, TransferAction::Finish(
            status,
        )),
    }
}

/// Position of a state in the order a transfer goes through.
pub open spec fn transfer_rank(state: TransferState) -> int {
    match state {
        TransferState::Idle => 0,
        TransferState::SettingBlockCount => 1,
        TransferState::Starting => 2,
        TransferState::Waiting => 3,
        TransferState::ReadingResponse => 4,
        TransferState::CheckingResponse => 5,
        TransferState::Done => 6,
    }
}

/// Every step moves a transfer forward, and a transfer finishes exactly
/// when it reaches `Done`: after at most six steps it is over, and the
/// action of its last step is `Finish`.
pub proof fn lemma_transfer_progress(state: TransferState, event: TransferEvent, dma: bool, irq: bool)
    requires
        event_fits(state, event),
    ensures
        transfer_rank(spec_transfer_step(state, event, dma, irq).0) > transfer_rank(state),
        (spec_transfer_step(state, event, dma, irq).0 == TransferState::Done) <==> (spec_transfer_step(
            state,
            event,
            dma,
            irq,
        ).1 is Finish),
        !event_fits(TransferState::Done, event),
{
}

/// A transfer runs in the mode it was given: every start and every wait
/// that a step asks for carries the `dma` flag of the step, on every path,
/// a command without a block count to announce included.  In full: a
/// command is started right away unless it is a multi-block read or write
/// (CMD18, CMD25) of more than one block, which first announces its block
/// count; it is started once the count was announced, and waited for once
/// it started.
pub proof fn lemma_transfer_step_keeps_mode(
    state: TransferState,
    event: TransferEvent,
    dma: bool,
    irq: bool,
)
    requires
        event_fits(state, event),
    ensures
        ({
            let (next, action) = spec_transfer_step(state, event, dma, irq);
            &&& action matches TransferAction::StartTransfer { dma: d } ==> d == dma
            &&& action matches TransferAction::WaitTransferEnd { dma: d } ==> d == dma
            &&& event matches TransferEvent::Begin { cmd_index: Some(i), block_count } ==> (!(
            block_count matches Some(c) && (i == MCI_HOST_CMD_READ_MULTIPLE_BLOCK || i
                == MCI_HOST_CMD_WRITE_MULTIPLE_BLOCK) && c > 1) ==> next == TransferState::Starting
                && action == TransferAction::StartTransfer { dma })
            &&& event matches TransferEvent::Begin { cmd_index: Some(i), block_count: Some(c) } ==> ((i
                == MCI_HOST_CMD_READ_MULTIPLE_BLOCK || i == MCI_HOST_CMD_WRITE_MULTIPLE_BLOCK) && c
                > 1 ==> next == TransferState::SettingBlockCount && action
                == TransferAction::SetBlockCount(c))
            &&& event matches TransferEvent::BlockCountSet(Ok(_)) ==> next == TransferState::Starting
                && action == TransferAction::StartTransfer { dma }
            &&& event == TransferEvent::TransferStarted(true) ==> next == TransferState::Waiting
                && action == TransferAction::WaitTransferEnd { dma }
        }),
{
}

/// How each outcome ends or continues a transfer: a transfer without command
/// fails with `NoData`, a failed block count announcement with its own
/// error, a command that did not start with `NoData`; a command that did not
/// finish fails with `Timeout` when completion comes by interrupt and with
/// `NoData` when polling; a response that could not be read fails with
/// `Timeout`; a read response is checked when completion comes by
/// interrupt, and the transfer succeeds at once when polling; the check's
/// result ends the transfer.
pub proof fn lemma_transfer_step_outcomes(
    state: TransferState,
    event: TransferEvent,
    dma: bool,
    irq: bool,
)
    requires
        event_fits(state, event),
    ensures
        ({
            let r = spec_transfer_step(state, event, dma, irq);
            &&& event matches TransferEvent::Begin { cmd_index: None, .. } ==> r == (
                TransferState::Done,
                TransferAction::Finish(Err(MCIHostError::NoData)),
            )
            &&& event matches TransferEvent::BlockCountSet(Err(e)) ==> r == (
                TransferState::Done,
                TransferAction::Finish(Err(e)),
            )
            &&& event == TransferEvent::TransferStarted(false) ==> r == (
                TransferState::Done,
                TransferAction::Finish(Err(MCIHostError::NoData)),
            )
            &&& event == TransferEvent::TransferEnded(true) ==> r == (
                TransferState::ReadingResponse,
                TransferAction::ReadResponse,
            )
            &&& event == TransferEvent::TransferEnded(false) ==> r == (
                TransferState::Done,
                TransferAction::Finish(
                    Err(if irq { MCIHostError::Timeout } else { MCIHostError::NoData }),
                ),
            )
            &&& event == TransferEvent::ResponseRead(false) ==> r == (
                TransferState::Done,
                TransferAction::Finish(Err(MCIHostError::Timeout)),
            )
            &&& event == TransferEvent::ResponseRead(true) ==> r == (if irq {
                (TransferState::CheckingResponse, TransferAction::CheckResponse)
            } else {
                (TransferState::Done, TransferAction::Finish(Ok(())))
            })
            &&& event matches TransferEvent::ResponseChecked(status) ==> r == (
                TransferState::Done,
                TransferAction::Finish(status),
            )
        }),
{
}

/// Initialises the device: fails with `NoData` when it has no pad
/// configuration; otherwise restarts the controller with `restart` (its
/// result does not matter), configures it with `config_init` and, in DMA
/// mode, installs the descriptor list with `set_idma_list`, failing with
/// `Fail` when one of these two fails.
pub fn sdif_do_init<R: Fn() -> bool, C: Fn() -> bool, I: Fn() -> bool>(
    iopad_present: bool,
    enable_dma: bool,
    restart: R,
    config_init: C,
    set_idma_list: I,
) -> (r: MCIHostStatus)
    requires
        iopad_present ==> restart.requires(()) && config_init.requires(()),
        iopad_present && enable_dma ==> set_idma_list.requires(()),
    ensures
        !iopad_present <==> r == Err::<(), MCIHostError>(MCIHostError::NoData),
        r is Ok || r == Err::<(), MCIHostError>(MCIHostError::NoData) || r == Err::<(), MCIHostError>(
            MCIHostError::Fail,
        ),
        r is Ok ==> config_init.ensures((), true) && (enable_dma ==> set_idma_list.ensures((), true)),
        r == Err::<(), MCIHostError>(MCIHostError::Fail) ==> config_init.ensures((), false) || (
        enable_dma && set_idma_list.ensures((), false)),
        iopad_present && (forall|b: bool| config_init.ensures((), b) ==> b) && (enable_dma ==> forall|
            b: bool,
        | set_idma_list.ensures((), b) ==> b) ==> r is Ok,
        iopad_present && (forall|b: bool| config_init.ensures((), b) ==> !b) ==> r == Err::<
            (),
            MCIHostError,
        >(MCIHostError::Fail),
{
    if !iopad_present {
        return Err(MCIHostError::NoData);
    }
    let _ = restart();
    if !config_init() {
        return Err(MCIHostError::Fail);
    }
    if enable_dma {
        if !set_idma_list() {
            return Err(MCIHostError::Fail);
        }
    }
    Ok(())
}

} // verus!
