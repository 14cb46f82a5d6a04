//! The raw byte relay over a serial line, as a state machine.
//!
//! The relay sets the line up, sets the read deadline, writes the caller's
//! bytes and reads once what comes back. Each of these is done by whoever
//! holds the line; which comes next, with what argument, and what follows a
//! failure is decided here.

use crate::model::{
    DataBits, FlowControl, Parity, SerialConfig, StopBits, DEFAULT_BAUD_RATE, DEFAULT_TIMEOUT_MS,
};
use vstd::prelude::*;
use vstd::slice::slice_to_vec;

verus! {

/// Most bytes that the relay's one read takes in.
pub const RELAY_BUFFER_LEN: usize = 255;

/// What the relay asked for last.
#[derive(Clone, Copy, Debug, PartialEq, Eq, Structural)]
pub enum RelayPhase {
    /// Nothing yet.
    Start,
    /// The line parameters are being applied.
    Configuring,
    /// The read deadline is being set.
    SettingTimeout,
    /// The bytes are being written.
    Writing,
    /// The answer is being read.
    Reading,
}

/// What the relay asks of the line next, or how it ended. `E` is the error
/// of whoever holds the line.
#[derive(Debug, PartialEq, Eq)]
pub enum RelayAction<E> {
    /// Apply these line parameters.
    Reconfigure(SerialConfig),
    /// Set the deadline for reads, in milliseconds.
    SetTimeout(u64),
    /// Write these bytes.
    Write(Vec<u8>),
    /// Read once, into a buffer of this many bytes.
    Read(usize),
    /// The relay is over.
    Done(Result<(), E>),
}

/// The line parameters of the relay: 115200 baud, eight data bits, no
/// parity, one stop bit, no flow control, and five seconds for each read.
pub open spec fn relay_settings() -> SerialConfig {
    SerialConfig {
        baud_rate: 115200,
        data_bits: DataBits::Eight,
        parity: Parity::NoParity,
        stop_bits: StopBits::One,
        flow_control: FlowControl::NoFlow,
        timeout_ms: 5000,
    }
}

/// Takes the relay one step on.
///
/// `reply` is the outcome of what was asked for last (`Ok(())` at the
/// start), `values` the bytes to relay. An error ends the relay at once
/// with that error, and nothing more is asked of the line. Else the steps
/// come in one order: the line parameters, the read deadline, the write of
/// exactly `values`, one read of up to 255 bytes, and the end. What the
/// read brought is of no account.
pub fn relay_step<E>(phase: RelayPhase, reply: Result<(), E>, values: &[u8]) -> (next: (
    RelayPhase,
    RelayAction<E>,
))
    ensures
        match reply {
            Err(e) => next.1 matches RelayAction::Done(Err(f)) && f == e && next.0 == phase,
            Ok(_) => match phase {
                RelayPhase::Start => (next.1 matches RelayAction::Reconfigure(c) && c
                    == relay_settings() && next.0 == RelayPhase::Configuring),
                RelayPhase::Configuring => (next.1 matches RelayAction::SetTimeout(ms) && ms
                    == 5000 && next.0 == RelayPhase::SettingTimeout),
                RelayPhase::SettingTimeout => (next.1 matches RelayAction::Write(bytes) && bytes@
                    == values@ && next.0 == RelayPhase::Writing),
                RelayPhase::Writing => (next.1 matches RelayAction::Read(n) && n
                    == RELAY_BUFFER_LEN && next.0 == RelayPhase::Reading),
                RelayPhase::Reading => (next.1 matches RelayAction::Done(Ok(_)) && next.0
                    == RelayPhase::Reading),
            },
        },
{
    match reply {
        Err(e) => (phase, RelayAction::Done(Err(e))),
        Ok(_) => match phase {
            RelayPhase::Start => (
                RelayPhase::Configuring,
                RelayAction::Reconfigure(
                    SerialConfig {
                        baud_rate: DEFAULT_BAUD_RATE,
                        data_bits: DataBits::Eight,
                        parity: Parity::NoParity,
                        stop_bits: StopBits::One,
                        flow_control: FlowControl::NoFlow,
                        timeout_ms: DEFAULT_TIMEOUT_MS,
                    },
                ),
            ),
            RelayPhase::Configuring => (
                RelayPhase::SettingTimeout,
                RelayAction::SetTimeout(DEFAULT_TIMEOUT_MS),
            ),
            RelayPhase::SettingTimeout => (
                RelayPhase::Writing,
                RelayAction::Write(slice_to_vec(values)),
            ),
            RelayPhase::Writing => (RelayPhase::Reading, RelayAction::Read(RELAY_BUFFER_LEN)),
            RelayPhase::Reading => (RelayPhase::Reading, RelayAction::Done(Ok(()))),
        },
    }
}

}
