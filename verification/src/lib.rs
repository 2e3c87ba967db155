//! Protocol-encoding and parameter-validation layer for a serial radio
//! transceiver module driven by ASCII "AT" commands.
//!
//! The library validates typed configuration values (baud rate, channel,
//! transmission power, operating mode), derives physical quantities from
//! them, and renders each parameter into the byte-exact, CRLF-terminated
//! command or query string the module expects on the wire.

use vstd::prelude::*;

pub mod config;
pub mod command;
pub mod query;

verus! {

/// Crate-wide error type.
///
/// `Read` and `Write` belong to the transport collaborator and are only
/// carried through here; `InvalidChannel` and `InvalidBaudRate` are this
/// layer's own validation failures.
#[derive(Clone, Copy, Debug, PartialEq, Eq, Structural)]
pub enum Error {
    /// Transport-level read failure.
    Read,
    /// Transport-level write failure.
    Write,
    /// Channel code outside `1..=127`; carries the rejected code.
    InvalidChannel(u8),
    /// Baud rate not permitted by the active operating mode.
    InvalidBaudRate,
}

} // verus!
