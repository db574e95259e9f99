//! The accumulator as a mathematical state machine.
//!
//! [`State`] is what an accumulator holds, [`State::request`] what it asks of
//! its host for a token, and [`State::submit`] where a token takes it, given
//! the host's reply. The contracts of the executable accumulator are stated
//! over these.
use crate::error::ErrorKind;
use crate::exchange::{ReplyView, RequestView};
use crate::history::{result_field, EntryView};
use crate::number::NumberView;
use crate::operator::Operator;
use crate::text::{shown, without_last};
use crate::token::{class_of, Token};
use vstd::prelude::*;

verus! {

/// What an accumulator holds.
pub ghost struct State {
    /// The text on the display.
    pub display: Seq<char>,
    /// The number being typed, as typed; empty while nothing has been typed.
    pub current_number: Seq<char>,
    /// The operator of the pending computation.
    pub operation: Option<Operator>,
    /// The left operand of the pending computation.
    pub previous_number: Option<NumberView>,
    /// The completed computations, oldest first.
    pub history: Seq<EntryView>,
}

impl State {
    /// The state of a new accumulator: a zero on the display, nothing typed,
    /// nothing pending, no history.
    pub open spec fn initial() -> State {
        State {
            display: seq!['0'],
            current_number: Seq::empty(),
            operation: None,
            previous_number: None,
            history: Seq::empty(),
        }
    }

    /// The invariant of the accumulator: the display shows the number being
    /// typed, and an operator is pending exactly when a left operand is.
    pub open spec fn consistent(self) -> bool {
        &&& self.display == shown(self.current_number)
        &&& self.operation is Some <==> self.previous_number is Some
    }

    /// The state with the display brought up to date.
    pub open spec fn refreshed(self) -> State {
        State { display: shown(self.current_number), ..self }
    }

    /// The state after a clear: only the history is kept.
    pub open spec fn reset(self) -> State {
        State {
            display: seq!['0'],
            current_number: Seq::empty(),
            operation: None,
            previous_number: None,
            history: self.history,
        }
    }

    /// The state after a backspace: the last character typed is gone. With
    /// nothing typed, nothing changes.
    pub open spec fn undo(self) -> State {
        if self.current_number.len() > 0 {
            State { current_number: without_last(self.current_number), ..self }.refreshed()
        } else {
            self
        }
    }

    /// The numeric work that a token needs. An operator needs the number
    /// being typed read, unless nothing has been typed; an equals sign needs
    /// the pending computation carried out, if one is pending.
    pub open spec fn request(self, token: Seq<char>) -> RequestView {
        match class_of(token) {
            Token::Operator(_) => if self.current_number.len() > 0 {
                RequestView::Operand { text: self.current_number }
            } else {
                RequestView::Nothing
            },
            Token::Equals => match (self.previous_number, self.operation) {
                (Some(left), Some(operator)) => RequestView::Evaluation {
                    left,
                    operator,
                    text: self.current_number,
                },
                _ => RequestView::Nothing,
            },
            _ => RequestView::Nothing,
        }
    }

    /// Whether a token with the host's reply asks for a division by zero: an
    /// equals sign while a division is pending, with a right operand that was
    /// read as zero.
    pub open spec fn divides_by_zero(self, token: Seq<char>, reply: ReplyView) -> bool {
        &&& class_of(token) == Token::Equals
        &&& self.previous_number is Some
        &&& self.operation == Some(Operator::Divide)
        &&& reply matches ReplyView::Evaluation { right, .. } && right.is_zero()
    }

    /// What submitting a token with the host's reply returns. The one
    /// refusal is a division by zero.
    pub open spec fn outcome(self, token: Seq<char>, reply: ReplyView) -> Result<(), ErrorKind> {
        if self.divides_by_zero(token, reply) {
            Err(ErrorKind::DivisionByZero)
        } else {
            Ok(())
        }
    }

    /// The state with an operator accepted: the operand read by the host
    /// becomes the left operand and typing starts afresh. Without a typed
    /// number, or without a reading of it, nothing changes.
    pub open spec fn begin(self, operator: Operator, reply: ReplyView) -> State {
        match reply {
            ReplyView::Operand(number) if self.current_number.len() > 0 => State {
                operation: Some(operator),
                previous_number: Some(number),
                current_number: Seq::empty(),
                ..self
            },
            _ => self,
        }
    }

    /// The state with the pending computation completed: a history entry is
    /// appended, the result's text becomes the number being typed, and
    /// nothing is pending. Without a pending computation, or without an
    /// evaluation by the host, nothing changes.
    pub open spec fn complete(self, reply: ReplyView) -> State {
        match (self.previous_number, self.operation, reply) {
            (Some(left), Some(operator), ReplyView::Evaluation { right, result }) => State {
                history: self.history.push(EntryView { left, operator, right, result }),
                current_number: result.text,
                operation: None,
                previous_number: None,
                ..self
            },
            _ => self,
        }
    }

    /// The state with a text appended to the number being typed.
    pub open spec fn typed(self, text: Seq<char>) -> State {
        State { current_number: self.current_number + text, ..self }
    }

    /// Where a token takes the state, given the host's reply. A refused token
    /// changes nothing; every other token ends with the display brought up
    /// to date.
    pub open spec fn submit(self, token: Seq<char>, reply: ReplyView) -> State {
        if self.outcome(token, reply) is Err {
            self
        } else {
            match class_of(token) {
                Token::Operator(operator) => self.begin(operator, reply),
                Token::Equals => self.complete(reply),
                Token::Clear => self.reset(),
                Token::Backspace => self.undo(),
                Token::Text => self.typed(token),
            }.refreshed()
        }
    }

    /// The state after a history line is replayed: the result that the line
    /// shows becomes the number being typed.
    pub open spec fn replay(self, line: Seq<char>) -> State {
        State { current_number: result_field(line), ..self }.refreshed()
    }
}

} // verus!
