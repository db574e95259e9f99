//! Completed computations: how they are kept, rendered and read back.
use crate::number::{Number, NumberView};
use crate::operator::Operator;
use crate::text::{find_last, last_index_of, trim, trimmed};
use vstd::prelude::*;

verus! {

/// One completed computation.
#[derive(Debug)]
pub struct HistoryEntry {
    pub left: Number,
    pub operator: Operator,
    pub right: Number,
    pub result: Number,
}

/// The mathematical content of a [`HistoryEntry`].
pub ghost struct EntryView {
    pub left: NumberView,
    pub operator: Operator,
    pub right: NumberView,
    pub result: NumberView,
}

impl EntryView {
    /// The line that shows this computation: the left operand, the operator
    /// and the right operand, an equals sign and the result, with one blank
    /// between neighbours.
    pub open spec fn rendered(self) -> Seq<char> {
        self.left.text + seq![' ', self.operator.spec_symbol(), ' '] + self.right.text + seq![
            ' ',
            '=',
            ' ',
        ] + self.result.text
    }
}

impl View for HistoryEntry {
    type V = EntryView;

    open spec fn view(&self) -> EntryView {
        EntryView {
            left: self.left@,
            operator: self.operator,
            right: self.right@,
            result: self.result@,
        }
    }
}

impl Clone for HistoryEntry {
    fn clone(&self) -> (copy: Self)
        ensures
            copy == *self,
    {
        HistoryEntry {
            left: self.left.clone(),
            operator: self.operator,
            right: self.right.clone(),
            result: self.result.clone(),
        }
    }
}

/// The operator's symbol with a blank on either side.
fn infix(operator: Operator) -> (text: &'static str)
    ensures
        text@ == seq![' ', operator.spec_symbol(), ' '],
{
    proof {
        reveal_strlit(" + ");
        reveal_strlit(" - ");
        reveal_strlit(" * ");
        reveal_strlit(" / ");
        assert(" + "@ =~= seq![' ', '+', ' ']);
        assert(" - "@ =~= seq![' ', '-', ' ']);
        assert(" * "@ =~= seq![' ', '*', ' ']);
        assert(" / "@ =~= seq![' ', '/', ' ']);
    }
    match operator {
        Operator::Add => " + ",
        Operator::Subtract => " - ",
        Operator::Multiply => " * ",
        Operator::Divide => " / ",
    }
}

impl HistoryEntry {
    /// Renders this computation as a history line.
    pub fn render(&self) -> (line: String)
        ensures
            line@ == self@.rendered(),
    {
        proof {
            reveal_strlit(" = ");
            assert(" = "@ =~= seq![' ', '=', ' ']);
        }
        let mut line = self.left.text.clone();
        line.append(infix(self.operator));
        line.append(self.right.text.as_str());
        line.append(" = ");
        line.append(self.result.text.as_str());
        line
    }
}

/// The result that a history line shows: what follows its last equals sign,
/// without the white space around it. A line without an equals sign shows no
/// result, and stands for zero.
pub open spec fn result_field(line: Seq<char>) -> Seq<char> {
    match last_index_of(line, '=') {
        Some(i) => trimmed(line.skip(i + 1)),
        None => seq!['0'],
    }
}

/// Reads the result back from a history line.
pub fn result_of(line: &str) -> (result: String)
    ensures
        result@ == result_field(line@),
{
    match find_last(line, '=') {
        Some(i) => {
            let len: usize = line.unicode_len();
            proof {
                crate::text::last_index_of_is_last(line@, '=');
                assert(line@.skip(i + 1) =~= line@.subrange(i + 1, len as int));
            }
            trim(line.substring_char(i + 1, len))
        },
        None => {
            proof {
                reveal_strlit("0");
                assert("0"@ =~= seq!['0']);
            }
            String::from_str("0")
        },
    }
}

} // verus!
