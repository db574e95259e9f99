//! The failures that a submitted token can end in.
use vstd::prelude::*;

verus! {

/// Why a token was refused. A refused token leaves the accumulator as it was.
#[derive(Clone, Copy, Debug, PartialEq, Eq, Structural)]
pub enum ErrorKind {
    /// A division was asked for with zero as its right operand.
    DivisionByZero,
    /// An operator symbol other than `+`, `-`, `*` and `/` was given.
    InvalidOperation,
}

impl ErrorKind {
    /// The text shown to the user for this failure.
    pub open spec fn spec_message(self) -> Seq<char> {
        match self {
            ErrorKind::DivisionByZero => "División por cero"@,
            ErrorKind::InvalidOperation => "Operación inválida"@,
        }
    }

    /// Returns the text shown to the user for this failure.
    pub fn message(&self) -> (text: String)
        ensures
            text@ == self.spec_message(),
    {
        match self {
            ErrorKind::DivisionByZero => String::from_str("División por cero"),
            ErrorKind::InvalidOperation => String::from_str("Operación inválida"),
        }
    }
}

} // verus!
