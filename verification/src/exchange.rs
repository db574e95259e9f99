//! What passes between the accumulator and its host.
//!
//! The accumulator holds no arithmetic. Before a token is submitted it says
//! what numeric work the token needs ([`Request`]); the host does that work
//! and hands the outcome in with the token ([`Reply`]).
use crate::number::{Number, NumberView};
use crate::operator::Operator;
use vstd::prelude::*;

verus! {

/// The numeric work that the accumulator needs done before it can take a
/// token.
#[derive(Debug)]
pub enum Request {
    /// The token needs no numeric work.
    Nothing,
    /// Read `text` as a number: it becomes the left operand.
    Operand { text: String },
    /// Read `text` as a number, the right operand, and apply `operator` to
    /// `left` and it.
    Evaluation { left: Number, operator: Operator, text: String },
}

/// The mathematical content of a [`Request`].
pub ghost enum RequestView {
    Nothing,
    Operand { text: Seq<char> },
    Evaluation { left: NumberView, operator: Operator, text: Seq<char> },
}

impl View for Request {
    type V = RequestView;

    open spec fn view(&self) -> RequestView {
        match self {
            Request::Nothing => RequestView::Nothing,
            Request::Operand { text } => RequestView::Operand { text: text@ },
            Request::Evaluation { left, operator, text } => RequestView::Evaluation {
                left: left@,
                operator: *operator,
                text: text@,
            },
        }
    }
}

/// What the host found when it did the work of a [`Request`].
#[derive(Debug)]
pub enum Reply {
    /// No work was asked for, or the text is not a number.
    Nothing,
    /// The number that the text was read as.
    Operand(Number),
    /// The right operand that the text was read as, and the result of
    /// applying the operator.
    Evaluation { right: Number, result: Number },
}

/// The mathematical content of a [`Reply`].
pub ghost enum ReplyView {
    Nothing,
    Operand(NumberView),
    Evaluation { right: NumberView, result: NumberView },
}

impl View for Reply {
    type V = ReplyView;

    open spec fn view(&self) -> ReplyView {
        match self {
            Reply::Nothing => ReplyView::Nothing,
            Reply::Operand(number) => ReplyView::Operand(number@),
            Reply::Evaluation { right, result } => ReplyView::Evaluation {
                right: right@,
                result: result@,
            },
        }
    }
}

} // verus!
