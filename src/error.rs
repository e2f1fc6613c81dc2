//! Reasons a decode can fail.
use vstd::prelude::*;

verus! {

/// The rule an option's declared length must obey.
#[derive(Debug, Clone, Copy, PartialEq, Eq, Structural)]
pub enum LengthRule {
    AtLeast(u16),
    Exactly(u16),
    Even,
}

impl LengthRule {
    pub open spec fn holds(self, len: nat) -> bool {
        match self {
            LengthRule::AtLeast(m) => len >= m,
            LengthRule::Exactly(m) => len == m,
            LengthRule::Even => len % 2 == 0,
        }
    }
}

#[derive(Debug, Clone, Copy, PartialEq, Eq, Structural)]
pub enum DecodeError {
    /// Fewer bytes are available than a field or a declared length needs.
    Truncated,
    /// The message type byte is not one of the defined codes.
    InvalidMessageType,
    /// The option code is not one of the defined codes.
    UnknownOptionCode,
    /// The declared `length` of an option with this `code` breaks `rule`.
    LengthConstraintViolation { code: u16, length: u16, rule: LengthRule },
    /// A status message is not valid UTF-8.
    InvalidText,
    /// An option region ends with bytes too few to hold an option header.
    TrailingBytes,
}

} // verus!
