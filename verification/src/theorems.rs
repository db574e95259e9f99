//! What holds of the accumulator whatever it is fed.
use crate::error::ErrorKind;
use crate::exchange::ReplyView;
use crate::history::{result_field, EntryView};
use crate::operator::Operator;
use crate::state::State;
use crate::text::{last_index_of, last_index_of_is_last, shown, trim_start, trimmed};
use crate::token::{class_of, Token};
use vstd::prelude::*;

verus! {

/// One thing that can happen to an accumulator: a token is submitted with
/// the host's reply, or a history line is replayed.
pub ghost enum Input {
    Token { token: Seq<char>, reply: ReplyView },
    Replay { line: Seq<char> },
}

impl State {
    /// The state after one input.
    pub open spec fn step(self, input: Input) -> State {
        match input {
            Input::Token { token, reply } => self.submit(token, reply),
            Input::Replay { line } => self.replay(line),
        }
    }

    /// The state after a sequence of inputs, taken in order.
    pub open spec fn run(self, inputs: Seq<Input>) -> State
        decreases inputs.len(),
    {
        if inputs.len() == 0 {
            self
        } else {
            self.run(inputs.drop_last()).step(inputs.last())
        }
    }

    /// Whether some sequence of inputs leads a new accumulator to this state.
    pub open spec fn reachable(self) -> bool {
        exists|inputs: Seq<Input>| State::initial().run(inputs) == self
    }
}

/// The state of a new accumulator is reachable.
pub proof fn initial_is_reachable()
    ensures
        State::initial().reachable(),
{
    assert(State::initial().run(Seq::empty()) == State::initial());
}

/// One input leads from a reachable state to a reachable state.
pub proof fn step_keeps_reachability(state: State, input: Input)
    requires
        state.reachable(),
    ensures
        state.step(input).reachable(),
{
    let inputs = choose|inputs: Seq<Input>| State::initial().run(inputs) == state;
    let longer = inputs.push(input);
    assert(longer.drop_last() =~= inputs);
    assert(State::initial().run(longer) == state.step(input));
}

/// One input keeps the accumulator consistent.
pub proof fn step_keeps_consistency(state: State, input: Input)
    requires
        state.consistent(),
    ensures
        state.step(input).consistent(),
{
}

/// Any sequence of inputs keeps the accumulator consistent.
pub proof fn run_keeps_consistency(state: State, inputs: Seq<Input>)
    requires
        state.consistent(),
    ensures
        state.run(inputs).consistent(),
    decreases inputs.len(),
{
    if inputs.len() > 0 {
        run_keeps_consistency(state, inputs.drop_last());
        step_keeps_consistency(state.run(inputs.drop_last()), inputs.last());
    }
}

/// In every reachable state the display shows the number being typed: a
/// zero while nothing has been typed, and else the typed text. So, unless
/// the typed text is itself a single zero, the display shows a zero exactly
/// when nothing has been typed.
pub proof fn display_shows_current_number(state: State)
    requires
        state.reachable(),
    ensures
        state.display == shown(state.current_number),
        state.current_number.len() == 0 ==> state.display == seq!['0'],
        state.current_number.len() > 0 ==> state.display == state.current_number,
        state.current_number != seq!['0'] ==> (state.display == seq!['0']
            <==> state.current_number.len() == 0),
{
    let inputs = choose|inputs: Seq<Input>| State::initial().run(inputs) == state;
    run_keeps_consistency(State::initial(), inputs);
}

/// In every reachable state an operator is pending exactly when a left
/// operand is.
pub proof fn operator_and_operand_are_paired(state: State)
    requires
        state.reachable(),
    ensures
        state.operation is Some <==> state.previous_number is Some,
{
    let inputs = choose|inputs: Seq<Input>| State::initial().run(inputs) == state;
    run_keeps_consistency(State::initial(), inputs);
}

/// One input leaves the entries of the history as they are, and adds at most
/// one at the end.
pub proof fn step_extends_history(state: State, input: Input)
    ensures
        state.history.is_prefix_of(state.step(input).history),
        state.step(input).history.len() <= state.history.len() + 1,
{
}

/// The history only grows: whatever sequence of inputs follows, its length
/// does not decrease and the entries it holds stay as they are, in place.
pub proof fn history_only_grows(state: State, inputs: Seq<Input>)
    ensures
        state.history.is_prefix_of(state.run(inputs).history),
        state.history.len() <= state.run(inputs).history.len(),
        forall|i: int|
            0 <= i < state.history.len() ==> state.run(inputs).history[i] == state.history[i],
    decreases inputs.len(),
{
    if inputs.len() > 0 {
        let before = state.run(inputs.drop_last());
        history_only_grows(state, inputs.drop_last());
        step_extends_history(before, inputs.last());
    }
}

/// Clearing twice in a row is clearing once: both clears are accepted, and
/// the second changes nothing, whatever the host replies.
pub proof fn clear_is_idempotent(state: State, first: ReplyView, second: ReplyView)
    ensures
        state.outcome(seq!['a', 'c'], first) is Ok,
        state.submit(seq!['a', 'c'], first).outcome(seq!['a', 'c'], second) is Ok,
        state.submit(seq!['a', 'c'], first).submit(seq!['a', 'c'], second) == state.submit(
            seq!['a', 'c'],
            first,
        ),
        state.submit(seq!['a', 'c'], first) == state.reset(),
{
    assert(class_of(seq!['a', 'c']) == Token::Clear);
}

/// A token is refused exactly when it asks for a division by zero. The
/// refusal is then `DivisionByZero`, and the state stays as it was.
pub proof fn refusal_changes_nothing(state: State, token: Seq<char>, reply: ReplyView)
    ensures
        state.outcome(token, reply) is Err <==> state.divides_by_zero(token, reply),
        state.outcome(token, reply) is Err ==> state.outcome(token, reply) == Err::<
            (),
            ErrorKind,
        >(ErrorKind::DivisionByZero),
        state.outcome(token, reply) is Err ==> state.submit(token, reply) == state,
{
}

/// While a division is pending, an equals sign with a right operand that
/// was read as zero is refused with `DivisionByZero`, and display, number
/// being typed, pending computation and history stay as they were.
pub proof fn division_by_zero_is_refused(state: State, reply: ReplyView)
    requires
        state.operation == Some(Operator::Divide),
        state.previous_number is Some,
        reply matches ReplyView::Evaluation { right, .. } && right.is_zero(),
    ensures
        state.outcome(seq!['='], reply) == Err::<(), ErrorKind>(ErrorKind::DivisionByZero),
        state.submit(seq!['='], reply) == state,
{
    assert(class_of(seq!['=']) == Token::Equals);
}

/// An operator or an equals sign that the host has no numbers for changes
/// nothing in a consistent accumulator, and is accepted: either no work was
/// asked for (nothing typed before an operator, nothing pending before an
/// equals sign), or the host replied with nothing (the text is no number).
pub proof fn token_without_numbers_changes_nothing(
    state: State,
    token: Seq<char>,
    reply: ReplyView,
)
    requires
        state.consistent(),
        class_of(token) is Operator || class_of(token) == Token::Equals,
        state.request(token) is Nothing || reply is Nothing,
    ensures
        state.outcome(token, reply) is Ok,
        state.submit(token, reply) == state,
{
}

/// A backspace with nothing typed changes nothing in a consistent
/// accumulator.
pub proof fn backspace_on_nothing_changes_nothing(
    state: State,
    token: Seq<char>,
    reply: ReplyView,
)
    requires
        state.consistent(),
        class_of(token) == Token::Backspace,
        state.current_number.len() == 0,
    ensures
        state.outcome(token, reply) is Ok,
        state.submit(token, reply) == state,
{
}

/// The result read back from the line that an entry is rendered as is the
/// entry's result, without the white space around it, provided that the
/// result's text holds no equals sign.
pub proof fn rendered_line_shows_result(entry: EntryView)
    requires
        !entry.result.text.contains('='),
    ensures
        result_field(entry.rendered()) == trimmed(entry.result.text),
{
    let line = entry.rendered();
    let tail = entry.result.text;
    let at = line.len() - tail.len() - 2;
    assert(line[at] == '=');
    assert(forall|j: int| at + 1 < j < line.len() ==> line[j] == tail[j - at - 2]);
    assert(line[at + 1] == ' ');
    last_index_of_is_last(line, '=');
    assert(last_index_of(line, '=') == Some(at));
    let rest = line.skip(at + 1);
    assert(rest.first() == ' ');
    assert(rest.drop_first() =~= tail);
    assert(trim_start(rest) == trim_start(tail));
}

/// Replaying the line that an entry is rendered as makes the entry's result
/// the number being typed and the text on the display, and leaves the
/// pending computation and the history alone.
pub proof fn replay_takes_the_result(state: State, entry: EntryView)
    requires
        !entry.result.text.contains('='),
    ensures
        state.replay(entry.rendered()).current_number == trimmed(entry.result.text),
        state.replay(entry.rendered()).display == shown(trimmed(entry.result.text)),
        state.replay(entry.rendered()).operation == state.operation,
        state.replay(entry.rendered()).previous_number == state.previous_number,
        state.replay(entry.rendered()).history == state.history,
{
    rendered_line_shows_result(entry);
}

} // verus!
