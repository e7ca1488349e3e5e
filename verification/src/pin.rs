//! Signal-line state: the two single-bit latches that gate byte interpretation.

use vstd::prelude::*;

verus! {

/// The logic level of a signal line. The chip-select line addresses the
/// device when low; the data-select line marks a byte as a command opcode
/// when low and as parameter data when high.
#[derive(Clone, Copy, Debug, PartialEq, Eq, Structural)]
pub enum PinState {
    High,
    Low,
}

impl PinState {
    /// Whether the line is at the high level.
    pub fn is_high(&self) -> (r: bool)
        ensures
            r == (*self == PinState::High),
    {
        match self {
            PinState::High => true,
            PinState::Low => false,
        }
    }

    /// Whether the line is at the low level.
    pub fn is_low(&self) -> (r: bool)
        ensures
            r == (*self == PinState::Low),
    {
        match self {
            PinState::High => false,
            PinState::Low => true,
        }
    }
}

} // verus!
