//! Detecting and enabling address line 20.
//!
//! The check writes one marker at 0000:0500 and another at FFFF:0510, which
//! is the same byte when the line is masked and addresses wrap at 1 MiB,
//! then reads the first address back.
use vstd::prelude::*;

use crate::error::LoaderError;

verus! {

/// The markers of the first probe: low address, then high address.
pub const FIRST_PROBE: (u8, u8) = (0x00, 0xff);
/// The markers of the second probe, swapped so that a byte that already
/// held a marker cannot fool both.
pub const SECOND_PROBE: (u8, u8) = (0xff, 0x00);
/// The bit of the system control port that opens the line.
pub const FAST_GATE_BIT: u8 = 0x02;
/// The bit of the system control port that resets the machine.
pub const RESET_BIT: u8 = 0x01;

/// What the low address reads after the low marker and then the high
/// marker are written: the high one where the two addresses alias.
pub open spec fn low_readback(enabled: bool, low: u8, high: u8) -> u8 {
    if enabled {
        low
    } else {
        high
    }
}

/// Whether one probe shows the line enabled: the low address kept its own
/// marker.
pub fn probe_enabled(high: u8, readback: u8) -> (r: bool)
    ensures
        r == (readback != high),
{
    readback != high
}

/// Whether the line is enabled, from the readbacks of the two probes.
pub fn check(first_readback: u8, second_readback: u8) -> (r: bool)
    ensures
        r == (first_readback != FIRST_PROBE.1 && second_readback != SECOND_PROBE.1),
{
    probe_enabled(FIRST_PROBE.1, first_readback) && probe_enabled(SECOND_PROBE.1, second_readback)
}

/// The two probes tell an enabled line from a masked one.
pub proof fn check_is_exact(enabled: bool)
    ensures
        (first_readback_of(enabled) != FIRST_PROBE.1 && second_readback_of(enabled)
            != SECOND_PROBE.1) == enabled,
{
}

/// The readback of the first probe.
pub open spec fn first_readback_of(enabled: bool) -> u8 {
    low_readback(enabled, FIRST_PROBE.0, FIRST_PROBE.1)
}

/// The readback of the second probe.
pub open spec fn second_readback_of(enabled: bool) -> u8 {
    low_readback(enabled, SECOND_PROBE.0, SECOND_PROBE.1)
}

/// The ways of enabling the line, in the order they are tried.
#[derive(Clone, Copy, Debug, PartialEq, Eq, Structural)]
pub enum A20Method {
    /// Bit 1 of the system control port.
    FastGate,
}

/// The number of methods.
pub const A20_METHODS: usize = 1;

/// The method tried in position `i`.
pub open spec fn method_at(i: nat) -> A20Method {
    A20Method::FastGate
}

/// What to do next while enabling the line.
#[derive(Clone, Copy, Debug, PartialEq, Eq, Structural)]
pub enum A20Action {
    /// The line is enabled.
    Done,
    /// Try this method, then check again.
    Try(A20Method),
    /// No method worked.
    Fail(LoaderError),
}

/// The next action after `tried` methods, given whether the latest check
/// found the line enabled: stop once it is, else try the next method, and
/// fail once all have been tried.
pub fn enable_step(tried: usize, enabled: bool) -> (r: A20Action)
    requires
        tried <= A20_METHODS,
    ensures
        enabled ==> r == A20Action::Done,
        !enabled && tried < A20_METHODS ==> r == A20Action::Try(method_at(tried as nat)),
        !enabled && tried == A20_METHODS ==> r == A20Action::Fail(LoaderError::FatalHardwareError),
{
    if enabled {
        A20Action::Done
    } else if tried < A20_METHODS {
        A20Action::Try(A20Method::FastGate)
    } else {
        A20Action::Fail(LoaderError::FatalHardwareError)
    }
}

/// The value to write to the system control port, read as `port`, to open
/// the line: none if it is open already, else bit 1 set and the
/// reset bit cleared.
pub fn fast_gate_value(port: u8) -> (r: Option<u8>)
    ensures
        port & FAST_GATE_BIT != 0 ==> r is None,
        port & FAST_GATE_BIT == 0 ==> r == Some(((port | FAST_GATE_BIT) & !RESET_BIT) as u8),
{
    if port & FAST_GATE_BIT != 0 {
        None
    } else {
        Some((port | FAST_GATE_BIT) & !RESET_BIT)
    }
}

} // verus!
