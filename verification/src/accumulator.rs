//! The accumulator itself.
use crate::error::ErrorKind;
use crate::exchange::{Reply, Request};
use crate::history::{result_of, HistoryEntry};
use crate::number::{view_of, Number};
use crate::operator::Operator;
use crate::state::State;
use crate::text::{display_of, drop_last_char};
use crate::theorems::{
    initial_is_reachable, step_keeps_consistency, step_keeps_reachability, Input,
};
use crate::token::{classify, Token};
use vstd::prelude::*;

verus! {

/// The engine of a calculator with one register. It is fed one token per key
/// press and keeps the display text, the pending computation and the history
/// of completed ones.
#[derive(Debug)]
pub struct Accumulator {
    display: String,
    current_number: String,
    operation: Option<Operator>,
    previous_number: Option<Number>,
    history: Vec<HistoryEntry>,
}

impl View for Accumulator {
    type V = State;

    closed spec fn view(&self) -> State {
        State {
            display: self.display@,
            current_number: self.current_number@,
            operation: self.operation,
            previous_number: view_of(self.previous_number),
            history: self.history@.map_values(|entry: HistoryEntry| entry@),
        }
    }
}

impl Clone for Accumulator {
    fn clone(&self) -> (copy: Self)
        ensures
            copy@ == self@,
    {
        let mut history: Vec<HistoryEntry> = Vec::new();
        let mut i: usize = 0;
        while i < self.history.len()
            invariant
                i <= self.history.len(),
                history@ == self.history@.take(i as int),
            decreases self.history.len() - i,
        {
            history.push(self.history[i].clone());
            assert(self.history@.take(i + 1) =~= self.history@.take(i as int).push(
                self.history@[i as int],
            ));
            i += 1;
        }
        assert(self.history@.take(i as int) =~= self.history@);
        Accumulator {
            display: self.display.clone(),
            current_number: self.current_number.clone(),
            operation: self.operation,
            previous_number: match &self.previous_number {
                Some(number) => Some(number.clone()),
                None => None,
            },
            history,
        }
    }
}

impl Accumulator {
    /// Creates an accumulator in its initial state.
    pub fn new() -> (accumulator: Accumulator)
        ensures
            accumulator@ == State::initial(),
            accumulator@.reachable(),
    {
        proof {
            reveal_strlit("0");
            assert("0"@ =~= seq!['0']);
            initial_is_reachable();
        }
        let accumulator = Accumulator {
            display: String::from_str("0"),
            current_number: String::new(),
            operation: None,
            previous_number: None,
            history: Vec::new(),
        };
        assert(accumulator@.history =~= Seq::empty());
        accumulator
    }

    /// Brings the display up to date with the number being typed.
    fn update_display(&mut self)
        ensures
            final(self)@ == old(self)@.refreshed(),
    {
        self.display = display_of(self.current_number.as_str());
    }

    /// Forgets the number being typed and the pending computation. The
    /// history stays.
    fn reset(&mut self)
        ensures
            final(self)@ == old(self)@.reset(),
    {
        proof {
            reveal_strlit("0");
            assert("0"@ =~= seq!['0']);
        }
        self.display = String::from_str("0");
        self.current_number = String::new();
        self.operation = None;
        self.previous_number = None;
    }

    /// Takes back the last character typed, if there is one.
    fn undo(&mut self)
        ensures
            final(self)@ == old(self)@.undo(),
    {
        if !self.current_number.as_str().is_empty() {
            self.current_number = drop_last_char(self.current_number.as_str());
            self.update_display();
        }
    }

    /// Says what numeric work the host has to do before it submits `token`.
    pub fn request(&self, token: &str) -> (request: Request)
        ensures
            request@ == self@.request(token@),
    {
        match classify(token) {
            Token::Operator(_) => {
                if self.current_number.as_str().is_empty() {
                    Request::Nothing
                } else {
                    Request::Operand { text: self.current_number.clone() }
                }
            },
            Token::Equals => match (&self.previous_number, self.operation) {
                (Some(left), Some(operator)) => Request::Evaluation {
                    left: left.clone(),
                    operator,
                    text: self.current_number.clone(),
                },
                _ => Request::Nothing,
            },
            _ => Request::Nothing,
        }
    }

    /// Takes one token, with the host's reply to the request made for it.
    ///
    /// A division by zero is refused and changes nothing. Every other token
    /// is accepted; one that cannot take effect (an operator with nothing
    /// typed or with text that is no number, an equals sign with nothing
    /// pending or with text that is no number, a backspace with nothing
    /// typed) leaves a consistent accumulator as it was.
    pub fn submit(&mut self, token: &str, reply: Reply) -> (outcome: Result<(), ErrorKind>)
        ensures
            outcome == old(self)@.outcome(token@, reply@),
            final(self)@ == old(self)@.submit(token@, reply@),
            outcome is Err ==> final(self)@ == old(self)@,
            old(self)@.history.is_prefix_of(final(self)@.history),
            old(self)@.consistent() ==> final(self)@.consistent(),
            old(self)@.reachable() ==> final(self)@.reachable(),
    {
        proof {
            let input = Input::Token { token: token@, reply: reply@ };
            if old(self)@.consistent() {
                step_keeps_consistency(old(self)@, input);
            }
            if old(self)@.reachable() {
                step_keeps_reachability(old(self)@, input);
            }
        }
        match classify(token) {
            Token::Operator(operator) => {
                if !self.current_number.as_str().is_empty() {
                    if let Reply::Operand(number) = reply {
                        self.operation = Some(operator);
                        self.previous_number = Some(number);
                        self.current_number = String::new();
                    }
                }
            },
            Token::Equals => {
                if let Reply::Evaluation { right, result } = reply {
                    if let Some(operator) = self.operation {
                        if self.previous_number.is_some() {
                            if operator == Operator::Divide && right.is_zero() {
                                return Err(ErrorKind::DivisionByZero);
                            }
                            let left = self.previous_number.take().unwrap();
                            let ghost entries = self.history@.map_values(
                                |entry: HistoryEntry| entry@,
                            );
                            let entry = HistoryEntry { left, operator, right, result };
                            self.current_number = entry.result.text.clone();
                            self.operation = None;
                            self.history.push(entry);
                            assert(self.history@.map_values(|entry: HistoryEntry| entry@)
                                =~= entries.push(entry@));
                        }
                    }
                }
            },
            Token::Clear => self.reset(),
            Token::Backspace => self.undo(),
            Token::Text => self.current_number.append(token),
        }
        self.update_display();
        Ok(())
    }

    /// Takes the result that a history line shows as the number being typed.
    /// Nothing else changes.
    pub fn replay(&mut self, line: &str)
        ensures
            final(self)@ == old(self)@.replay(line@),
            old(self)@.consistent() ==> final(self)@.consistent(),
            old(self)@.reachable() ==> final(self)@.reachable(),
    {
        proof {
            if old(self)@.consistent() {
                step_keeps_consistency(old(self)@, Input::Replay { line: line@ });
            }
            if old(self)@.reachable() {
                step_keeps_reachability(old(self)@, Input::Replay { line: line@ });
            }
        }
        self.current_number = result_of(line);
        self.update_display();
    }

    /// Returns the text on the display.
    pub fn get_display(&self) -> (text: String)
        ensures
            text@ == self@.display,
    {
        self.display.clone()
    }

    /// Returns the history as rendered lines, oldest first.
    pub fn get_history(&self) -> (lines: Vec<String>)
        ensures
            lines@.len() == self@.history.len(),
            forall|i: int|
                0 <= i < lines@.len() ==> (#[trigger] lines@[i])@ == self@.history[i].rendered(),
    {
        let mut lines: Vec<String> = Vec::new();
        let mut i: usize = 0;
        while i < self.history.len()
            invariant
                i <= self.history.len(),
                lines@.len() == i,
                forall|k: int|
                    0 <= k < i ==> (#[trigger] lines@[k])@ == self.history@[k]@.rendered(),
            decreases self.history.len() - i,
        {
            lines.push(self.history[i].render());
            i += 1;
        }
        lines
    }

    /// Returns the number being typed, as typed.
    pub fn current_number(&self) -> (text: String)
        ensures
            text@ == self@.current_number,
    {
        self.current_number.clone()
    }

    /// Returns the operator of the pending computation.
    pub fn operation(&self) -> (operator: Option<Operator>)
        ensures
            operator == self@.operation,
    {
        self.operation
    }

    /// Returns the left operand of the pending computation.
    pub fn previous_number(&self) -> (number: Option<Number>)
        ensures
            view_of(number) == self@.previous_number,
    {
        match &self.previous_number {
            Some(number) => Some(number.clone()),
            None => None,
        }
    }
}

} // verus!
