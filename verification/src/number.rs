//! Numbers as the accumulator holds them.
//!
//! The accumulator does no arithmetic of its own. A number reaches it as the
//! host read or computed it: the bit pattern of a double-precision value,
//! and the text that the host renders that value as.
use vstd::prelude::*;

verus! {

/// The bit pattern of negative zero: the sign bit alone.
pub const SIGN_BIT: u64 = 0x8000_0000_0000_0000;

/// A double-precision number: its bit pattern and its rendering.
#[derive(Debug)]
pub struct Number {
    /// The IEEE 754 binary64 bit pattern of the value.
    pub bits: u64,
    /// The value as text, in the host's default rendering.
    pub text: String,
}

/// The mathematical content of a [`Number`].
pub ghost struct NumberView {
    pub bits: u64,
    pub text: Seq<char>,
}

impl NumberView {
    /// Whether the value compares equal to zero: positive zero has no bit
    /// set, negative zero the sign bit alone.
    pub open spec fn is_zero(self) -> bool {
        self.bits == 0 || self.bits == SIGN_BIT
    }
}

impl View for Number {
    type V = NumberView;

    open spec fn view(&self) -> NumberView {
        NumberView { bits: self.bits, text: self.text@ }
    }
}

impl Clone for Number {
    fn clone(&self) -> (copy: Self)
        ensures
            copy == *self,
    {
        Number { bits: self.bits, text: self.text.clone() }
    }
}

impl Number {
    /// Puts a bit pattern and its rendering together.
    pub fn new(bits: u64, text: String) -> (number: Number)
        ensures
            number@ == (NumberView { bits, text: text@ }),
    {
        Number { bits, text }
    }

    /// Whether the value compares equal to zero.
    pub fn is_zero(&self) -> (b: bool)
        ensures
            b == self@.is_zero(),
    {
        self.bits == 0 || self.bits == SIGN_BIT
    }
}

/// The content of a number that may be absent.
pub open spec fn view_of(number: Option<Number>) -> Option<NumberView> {
    match number {
        Some(n) => Some(n@),
        None => None,
    }
}

} // verus!
