//! VCO calibration handshake, modelled as an explicit state machine.
//!
//! The chip's self-calibration is triggered by pulsing bit 7 of control
//! register 0x1C: read the register, write it back with the bit cleared,
//! set, and cleared again (each write followed by a short settle delay),
//! then read status register 0x99, whose top five bits are the resulting
//! VCO band. The sequencer here only decides; the caller performs each
//! requested bus transaction and delay and feeds the outcome back in.
//! A transport failure at any step halts the handshake without retry.

use vstd::prelude::*;

verus! {

/// Control register holding the calibration-start bit.
pub const CONTROL_REGISTER: u8 = 0x1C;

/// Status register whose top five bits report the VCO band.
pub const STATUS_REGISTER: u8 = 0x99;

/// Settle time, in milliseconds, after each calibration write.
pub const SETTLE_MILLIS: u64 = 1;

/// One addressed single-byte bus transaction the sequencer asks for.
/// After a write, the transport must also wait `settle_millis` before
/// reporting the outcome, to let the chip settle.
#[derive(Clone, Copy, Debug, PartialEq, Eq, Structural)]
pub enum BusOperation {
    Read { register: u8 },
    Write { register: u8, value: u8, settle_millis: u64 },
}

/// Outcome of the transaction last asked for.
#[derive(Clone, Copy, Debug, PartialEq, Eq, Structural)]
pub enum CalEvent {
    ReadOk { value: u8 },
    WriteOk,
    BusFailed,
}

/// Position in the handshake. The `control` payload carried through the
/// middle states is the byte read back from the control register.
#[derive(Clone, Copy, Debug, PartialEq, Eq, Structural)]
pub enum CalState {
    /// About to read the control register.
    ReadControl,
    /// About to write the control byte with the calibration bit cleared.
    ClearCalBit { control: u8 },
    /// About to write the control byte with the calibration bit set.
    SetCalBit { control: u8 },
    /// About to write the control byte with the bit cleared again,
    /// completing the triggering pulse.
    ClearCalBitAgain { control: u8 },
    /// About to read the status register.
    ReadResult,
    /// Handshake complete; holds the VCO band index for diagnostics.
    Done { vco_band: u8 },
    /// A transport failure or protocol mismatch halted the handshake.
    Failed,
}

/// The bus transaction owed in a state, if any. Terminal states ask for
/// nothing.
pub open spec fn spec_pending_operation(s: CalState) -> Option<BusOperation> {
    match s {
        CalState::ReadControl => Some(BusOperation::Read { register: CONTROL_REGISTER }),
        CalState::ClearCalBit { control } => Some(
            BusOperation::Write {
                register: CONTROL_REGISTER,
                value: control & 0x7F,
                settle_millis: SETTLE_MILLIS,
            },
        ),
        CalState::SetCalBit { control } => Some(
            BusOperation::Write {
                register: CONTROL_REGISTER,
                value: control | 0x80,
                settle_millis: SETTLE_MILLIS,
            },
        ),
        CalState::ClearCalBitAgain { control } => Some(
            BusOperation::Write {
                register: CONTROL_REGISTER,
                value: control & 0x7F,
                settle_millis: SETTLE_MILLIS,
            },
        ),
        CalState::ReadResult => Some(BusOperation::Read { register: STATUS_REGISTER }),
        CalState::Done { .. } => None,
        CalState::Failed => None,
    }
}

/// Transition on the outcome of the pending transaction. Terminal states
/// absorb every event; a failure, or an outcome of the wrong shape, halts
/// the handshake.
pub open spec fn spec_next_state(s: CalState, e: CalEvent) -> CalState {
    match (s, e) {
        (CalState::Done { vco_band }, _) => CalState::Done { vco_band },
        (CalState::Failed, _) => CalState::Failed,
        (_, CalEvent::BusFailed) => CalState::Failed,
        (CalState::ReadControl, CalEvent::ReadOk { value }) => CalState::ClearCalBit {
            control: value,
        },
        (CalState::ClearCalBit { control }, CalEvent::WriteOk) => CalState::SetCalBit { control },
        (CalState::SetCalBit { control }, CalEvent::WriteOk) => CalState::ClearCalBitAgain {
            control,
        },
        (CalState::ClearCalBitAgain { .. }, CalEvent::WriteOk) => CalState::ReadResult,
        (CalState::ReadResult, CalEvent::ReadOk { value }) => CalState::Done {
            vco_band: value >> 3,
        },
        _ => CalState::Failed,
    }
}

/// Drives the five-transaction calibration handshake. The caller loops:
/// perform the pending operation on the bus, report its outcome through
/// `step`, until no operation is pending.
pub struct CalibrationSequencer {
    pub state: CalState,
}

impl CalibrationSequencer {
    /// A fresh handshake, about to read the control register.
    pub fn new() -> (s: Self)
        ensures
            s.state == CalState::ReadControl,
    {
        CalibrationSequencer { state: CalState::ReadControl }
    }

    /// The bus transaction the caller must perform next, or `None` once
    /// the handshake has finished or failed.
    pub fn pending_operation(&self) -> (op: Option<BusOperation>)
        ensures
            op == spec_pending_operation(self.state),
    {
        match self.state {
            CalState::ReadControl => Some(BusOperation::Read { register: CONTROL_REGISTER }),
            CalState::ClearCalBit { control } => Some(
                BusOperation::Write {
                    register: CONTROL_REGISTER,
                    value: control & 0x7F,
                    settle_millis: SETTLE_MILLIS,
                },
            ),
            CalState::SetCalBit { control } => Some(
                BusOperation::Write {
                    register: CONTROL_REGISTER,
                    value: control | 0x80,
                    settle_millis: SETTLE_MILLIS,
                },
            ),
            CalState::ClearCalBitAgain { control } => Some(
                BusOperation::Write {
                    register: CONTROL_REGISTER,
                    value: control & 0x7F,
                    settle_millis: SETTLE_MILLIS,
                },
            ),
            CalState::ReadResult => Some(BusOperation::Read { register: STATUS_REGISTER }),
            CalState::Done { .. } => None,
            CalState::Failed => None,
        }
    }

    /// Report the outcome of the pending transaction and advance.
    pub fn step(&mut self, event: CalEvent)
        ensures
            final(self).state == spec_next_state(old(self).state, event),
    {
        let next = match (self.state, event) {
            (CalState::Done { vco_band }, _) => CalState::Done { vco_band },
            (CalState::Failed, _) => CalState::Failed,
            (_, CalEvent::BusFailed) => CalState::Failed,
            (CalState::ReadControl, CalEvent::ReadOk { value }) => CalState::ClearCalBit {
                control: value,
            },
            (CalState::ClearCalBit { control }, CalEvent::WriteOk) => CalState::SetCalBit {
                control,
            },
            (CalState::SetCalBit { control }, CalEvent::WriteOk) => CalState::ClearCalBitAgain {
                control,
            },
            (CalState::ClearCalBitAgain { .. }, CalEvent::WriteOk) => CalState::ReadResult,
            (CalState::ReadResult, CalEvent::ReadOk { value }) => CalState::Done {
                vco_band: value >> 3,
            },
            _ => CalState::Failed,
        };
        self.state = next;
    }

    /// The VCO band index read back by a completed handshake.
    pub fn vco_band(&self) -> (band: Option<u8>)
        ensures
            band == (match self.state {
                CalState::Done { vco_band } => Some(vco_band),
                _ => None::<u8>,
            }),
    {
        match self.state {
            CalState::Done { vco_band } => Some(vco_band),
            _ => None,
        }
    }
}

/// A fault-free handshake performs exactly five bus transactions, in this
/// fixed order: read the control register 0x1C; write the byte read back
/// three times — calibration bit cleared, set, cleared again, each write
/// followed by the settle delay; then read status register 0x99. The final
/// state carries the top five bits of the status byte as the VCO band.
pub proof fn lemma_calibration_sequence(control: u8, status: u8)
    ensures
        spec_pending_operation(CalState::ReadControl) == Some(
            BusOperation::Read { register: 0x1Cu8 },
        ),
        spec_next_state(CalState::ReadControl, CalEvent::ReadOk { value: control }) == (
        CalState::ClearCalBit { control }),
        spec_pending_operation(CalState::ClearCalBit { control }) == Some(
            BusOperation::Write { register: 0x1Cu8, value: control & 0x7F, settle_millis: 1u64 },
        ),
        spec_next_state(CalState::ClearCalBit { control }, CalEvent::WriteOk) == (
        CalState::SetCalBit { control }),
        spec_pending_operation(CalState::SetCalBit { control }) == Some(
            BusOperation::Write { register: 0x1Cu8, value: control | 0x80, settle_millis: 1u64 },
        ),
        spec_next_state(CalState::SetCalBit { control }, CalEvent::WriteOk) == (
        CalState::ClearCalBitAgain { control }),
        spec_pending_operation(CalState::ClearCalBitAgain { control }) == Some(
            BusOperation::Write { register: 0x1Cu8, value: control & 0x7F, settle_millis: 1u64 },
        ),
        spec_next_state(CalState::ClearCalBitAgain { control }, CalEvent::WriteOk)
            == CalState::ReadResult,
        spec_pending_operation(CalState::ReadResult) == Some(
            BusOperation::Read { register: 0x99u8 },
        ),
        spec_next_state(CalState::ReadResult, CalEvent::ReadOk { value: status }) == (
        CalState::Done { vco_band: status >> 3 }),
        spec_pending_operation(CalState::Done { vco_band: status >> 3 }) is None,
        // the written values pulse bit 7: clear, set, clear
        (control & 0x7F) < 0x80,
        (control | 0x80) >= 0x80,
        (control & 0x7F) & 0x7F == control & 0x7F,
        (control | 0x80) & 0x7F == control & 0x7F,
        // the reported band is the status byte's top five bits
        (status >> 3) < 0x20,
{
    assert((control & 0x7F) < 0x80 && (control | 0x80) >= 0x80 && (control & 0x7F) & 0x7F
        == control & 0x7F && (control | 0x80) & 0x7F == control & 0x7F) by (bit_vector);
    assert((status >> 3) < 0x20) by (bit_vector);
}

/// A transport failure short-circuits the handshake: whatever step it
/// strikes, no further bus transaction is ever asked for, every
/// non-terminal state moves straight to `Failed`, and no later event
/// revives a failed handshake.
pub proof fn lemma_failure_short_circuits(state: CalState, event: CalEvent)
    ensures
        spec_pending_operation(spec_next_state(state, CalEvent::BusFailed)) is None,
        !(state is Done) ==> spec_next_state(state, CalEvent::BusFailed) is Failed,
        spec_next_state(CalState::Failed, event) == CalState::Failed,
        spec_pending_operation(spec_next_state(CalState::Failed, event)) is None,
{
}

} // verus!
