//! The four binary operators and their symbols.
use crate::error::ErrorKind;
use vstd::prelude::*;

verus! {

/// A binary operator of the accumulator.
#[derive(Clone, Copy, Debug, PartialEq, Eq, Structural)]
pub enum Operator {
    Add,
    Subtract,
    Multiply,
    Divide,
}

impl Operator {
    /// The character that stands for this operator on a key and in a history
    /// line.
    pub open spec fn spec_symbol(self) -> char {
        match self {
            Operator::Add => '+',
            Operator::Subtract => '-',
            Operator::Multiply => '*',
            Operator::Divide => '/',
        }
    }

    /// The operator that a character stands for, if it stands for one.
    pub open spec fn spec_from_symbol(c: char) -> Option<Operator> {
        if c == '+' {
            Some(Operator::Add)
        } else if c == '-' {
            Some(Operator::Subtract)
        } else if c == '*' {
            Some(Operator::Multiply)
        } else if c == '/' {
            Some(Operator::Divide)
        } else {
            None
        }
    }

    /// Returns the character that stands for this operator.
    pub fn symbol(self) -> (c: char)
        ensures
            c == self.spec_symbol(),
    {
        match self {
            Operator::Add => '+',
            Operator::Subtract => '-',
            Operator::Multiply => '*',
            Operator::Divide => '/',
        }
    }

    /// Reads an operator from its symbol. Any other character is refused with
    /// `InvalidOperation`.
    pub fn from_symbol(c: char) -> (r: Result<Operator, ErrorKind>)
        ensures
            r == match Operator::spec_from_symbol(c) {
                Some(op) => Ok::<Operator, ErrorKind>(op),
                None => Err::<Operator, ErrorKind>(ErrorKind::InvalidOperation),
            },
    {
        if c == '+' {
            Ok(Operator::Add)
        } else if c == '-' {
            Ok(Operator::Subtract)
        } else if c == '*' {
            Ok(Operator::Multiply)
        } else if c == '/' {
            Ok(Operator::Divide)
        } else {
            Err(ErrorKind::InvalidOperation)
        }
    }

    /// Every operator is read back from its own symbol, and a character
    /// stands for at most the operator that it is the symbol of.
    pub proof fn symbol_round_trip(op: Operator, c: char)
        ensures
            Operator::spec_from_symbol(op.spec_symbol()) == Some(op),
            Operator::spec_from_symbol(c) == Some(op) <==> c == op.spec_symbol(),
    {
    }
}

} // verus!
