//! Operand decoding: every raw word is either a literal, a register
//! reference or an invalid value.

use vstd::prelude::*;

verus! {

/// The largest word that stands for itself.
pub const MAX_LITERAL: u16 = 32767;

/// The first word that refers to a register (register 0).
pub const REGISTER_BASE: u16 = 32768;

/// The number of general-purpose registers.
pub const REGISTER_COUNT: usize = 8;

/// A decoded operand word.
#[derive(Clone, Copy, Debug, PartialEq, Eq, Structural)]
pub enum Value {
    /// A word in `0..=32767`, standing for itself.
    Literal(u16),
    /// A word in `32768..=32775`, naming register `word - 32768`.
    Register(u16),
    /// A word of `32776` or more, which no instruction may use.
    Invalid(u16),
}

/// What a raw word decodes to.
pub open spec fn decode(word: u16) -> Value {
    if word <= MAX_LITERAL {
        Value::Literal(word)
    } else if word < REGISTER_BASE + REGISTER_COUNT as u16 {
        Value::Register((word - REGISTER_BASE) as u16)
    } else {
        Value::Invalid(word)
    }
}

/// Classifies a raw word as a literal, a register reference or an invalid value.
pub fn parse(word: u16) -> (r: Value)
    ensures
        r == decode(word),
        word <= 32767 ==> r == Value::Literal(word),
        32768 <= word <= 32775 ==> r == Value::Register((word - 32768) as u16),
        word >= 32776 ==> r == Value::Invalid(word),
{
    if word <= MAX_LITERAL {
        Value::Literal(word)
    } else if word < REGISTER_BASE + REGISTER_COUNT as u16 {
        Value::Register(word - REGISTER_BASE)
    } else {
        Value::Invalid(word)
    }
}

} // verus!
