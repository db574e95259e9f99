//! The classes of input tokens.
use crate::operator::Operator;
use vstd::prelude::*;

verus! {

/// What a token asks of the accumulator.
#[derive(Clone, Copy, Debug, PartialEq, Eq, Structural)]
pub enum Token {
    /// One of `+`, `-`, `*`, `/`: start a computation with this operator.
    Operator(Operator),
    /// `=`: finish the pending computation.
    Equals,
    /// `ac`: forget the number being typed and the pending computation.
    Clear,
    /// `<`: take back the last character typed.
    Backspace,
    /// Anything else: text to append to the number being typed.
    Text,
}

/// The class of a token. Only the exact texts `+`, `-`, `*`, `/`, `=`, `ac`
/// and `<` are commands; every other text, the empty one too, is typed text.
pub open spec fn class_of(token: Seq<char>) -> Token {
    if token.len() == 1 && Operator::spec_from_symbol(token[0]) is Some {
        Token::Operator(Operator::spec_from_symbol(token[0])->0)
    } else if token == seq!['='] {
        Token::Equals
    } else if token == seq!['a', 'c'] {
        Token::Clear
    } else if token == seq!['<'] {
        Token::Backspace
    } else {
        Token::Text
    }
}

/// Classifies a token.
pub fn classify(token: &str) -> (class: Token)
    ensures
        class == class_of(token@),
{
    let len: usize = token.unicode_len();
    if len == 1 {
        let c: char = token.get_char(0);
        match Operator::from_symbol(c) {
            Ok(op) => Token::Operator(op),
            Err(_) => {
                if c == '=' {
                    assert(token@ =~= seq!['=']);
                    Token::Equals
                } else if c == '<' {
                    assert(token@ =~= seq!['<']);
                    Token::Backspace
                } else {
                    assert(token@ != seq!['='] && token@ != seq!['<']) by {
                        assert(seq!['='][0] == '=');
                        assert(seq!['<'][0] == '<');
                    }
                    Token::Text
                }
            },
        }
    } else if len == 2 && token.get_char(0) == 'a' && token.get_char(1) == 'c' {
        assert(token@ =~= seq!['a', 'c']);
        Token::Clear
    } else {
        assert(token@ != seq!['a', 'c']) by {
            assert(seq!['a', 'c'][0] == 'a');
            assert(seq!['a', 'c'][1] == 'c');
        }
        Token::Text
    }
}

} // verus!
