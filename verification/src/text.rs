//! Text helpers: the display text of a number being typed, white space,
//! trimming, and dropping the last character.
use vstd::prelude::*;

verus! {

/// What the display shows for a number being typed: the text itself, or a
/// single zero while nothing has been typed.
pub open spec fn shown(current: Seq<char>) -> Seq<char> {
    if current.len() == 0 {
        seq!['0']
    } else {
        current
    }
}

/// Computes the display text for the number being typed.
pub fn display_of(current: &str) -> (text: String)
    ensures
        text@ == shown(current@),
{
    if current.is_empty() {
        proof {
            reveal_strlit("0");
            assert("0"@ =~= seq!['0']);
        }
        String::from_str("0")
    } else {
        String::from_str(current)
    }
}

/// Whether a character is white space: the code points that Unicode gives the
/// property `White_Space`.
pub open spec fn is_space(c: char) -> bool {
    let code = c as u32;
    ||| 0x09 <= code <= 0x0D
    ||| code == 0x20
    ||| code == 0x85
    ||| code == 0xA0
    ||| code == 0x1680
    ||| 0x2000 <= code <= 0x200A
    ||| code == 0x2028
    ||| code == 0x2029
    ||| code == 0x202F
    ||| code == 0x205F
    ||| code == 0x3000
}

/// Decides whether a character is white space.
pub fn is_space_char(c: char) -> (b: bool)
    ensures
        b == is_space(c),
{
    let code: u32 = c as u32;
    (0x09 <= code && code <= 0x0D)
        || code == 0x20
        || code == 0x85
        || code == 0xA0
        || code == 0x1680
        || (0x2000 <= code && code <= 0x200A)
        || code == 0x2028
        || code == 0x2029
        || code == 0x202F
        || code == 0x205F
        || code == 0x3000
}

/// The text without its leading white space.
pub open spec fn trim_start(s: Seq<char>) -> Seq<char>
    decreases s.len(),
{
    if s.len() > 0 && is_space(s.first()) {
        trim_start(s.drop_first())
    } else {
        s
    }
}

/// The text without its trailing white space.
pub open spec fn trim_end(s: Seq<char>) -> Seq<char>
    decreases s.len(),
{
    if s.len() > 0 && is_space(s.last()) {
        trim_end(s.drop_last())
    } else {
        s
    }
}

/// The text without the white space around it.
pub open spec fn trimmed(s: Seq<char>) -> Seq<char> {
    trim_end(trim_start(s))
}

/// Trimming at the start cuts off white space and nothing else, and stops at
/// the first character that is none.
pub proof fn trim_start_cuts_leading_space(s: Seq<char>)
    ensures
        trim_start(s).len() <= s.len(),
        trim_start(s) == s.skip(s.len() - trim_start(s).len()),
        forall|k: int| 0 <= k < s.len() - trim_start(s).len() ==> is_space(s[k]),
        trim_start(s).len() > 0 ==> !is_space(trim_start(s).first()),
    decreases s.len(),
{
    if s.len() > 0 && is_space(s.first()) {
        let rest = s.drop_first();
        trim_start_cuts_leading_space(rest);
        let cut = rest.len() - trim_start(rest).len();
        assert(rest.skip(cut) =~= s.skip(cut + 1));
        assert(forall|k: int| 1 <= k < cut + 1 ==> s[k] == rest[k - 1]);
    } else {
        assert(s.skip(0) =~= s);
    }
}

/// Trimming at the end cuts off white space and nothing else, and stops at
/// the last character that is none.
pub proof fn trim_end_cuts_trailing_space(s: Seq<char>)
    ensures
        trim_end(s).len() <= s.len(),
        trim_end(s) == s.take(trim_end(s).len() as int),
        forall|k: int| trim_end(s).len() <= k < s.len() ==> is_space(s[k]),
        trim_end(s).len() > 0 ==> !is_space(trim_end(s).last()),
    decreases s.len(),
{
    if s.len() > 0 && is_space(s.last()) {
        let rest = s.drop_last();
        trim_end_cuts_trailing_space(rest);
        let kept = trim_end(rest).len() as int;
        assert(rest.take(kept) =~= s.take(kept));
        assert(forall|k: int| kept <= k < rest.len() ==> s[k] == rest[k]);
    } else {
        assert(s.take(s.len() as int) =~= s);
    }
}

/// Where the trimmed text begins in the text: behind the leading white
/// space.
pub open spec fn trimmed_from(s: Seq<char>) -> int {
    s.len() - trim_start(s).len()
}

/// The trimmed text is the stretch of the text that begins at
/// `trimmed_from`. Nothing but white space stands before and after it, and it
/// neither begins nor ends with white space.
pub proof fn trimmed_is_the_core(s: Seq<char>)
    ensures
        0 <= trimmed_from(s) <= trimmed_from(s) + trimmed(s).len() <= s.len(),
        trimmed(s) == s.subrange(trimmed_from(s), trimmed_from(s) + trimmed(s).len()),
        forall|k: int| 0 <= k < trimmed_from(s) ==> is_space(s[k]),
        forall|k: int| trimmed_from(s) + trimmed(s).len() <= k < s.len() ==> is_space(s[k]),
        trimmed(s).len() > 0 ==> !is_space(trimmed(s).first()) && !is_space(trimmed(s).last()),
{
    let body = trim_start(s);
    let core = trimmed(s);
    trim_start_cuts_leading_space(s);
    trim_end_cuts_trailing_space(body);
    let from = trimmed_from(s);
    assert(core =~= s.subrange(from, from + core.len()));
    assert(forall|k: int| from + core.len() <= k < s.len() ==> s[k] == body[k - from]);
    if core.len() > 0 {
        assert(core.first() == body.first());
    }
}

/// Removes the white space around a text.
pub fn trim(text: &str) -> (r: String)
    ensures
        r@ == trimmed(text@),
{
    let len: usize = text.unicode_len();
    let mut start: usize = 0;
    assert(text@.skip(0) =~= text@);
    while start < len && is_space_char(text.get_char(start))
        invariant
            start <= len,
            len == text@.len(),
            trim_start(text@) == trim_start(text@.skip(start as int)),
        decreases len - start,
    {
        proof {
            let rest = text@.skip(start as int);
            assert(rest.first() == text@[start as int]);
            assert(rest.drop_first() =~= text@.skip(start + 1));
        }
        start += 1;
    }
    let ghost body = text@.skip(start as int);
    assert(trim_start(text@) == body) by {
        if start < len {
            assert(body.first() == text@[start as int]);
        }
    }
    let mut end: usize = len;
    while end > start && is_space_char(text.get_char(end - 1))
        invariant
            start <= end <= len,
            len == text@.len(),
            body == text@.skip(start as int),
            trim_end(body) == trim_end(text@.subrange(start as int, end as int)),
        decreases end - start,
    {
        proof {
            let part = text@.subrange(start as int, end as int);
            assert(part.last() == text@[end - 1]);
            assert(part.drop_last() =~= text@.subrange(start as int, end - 1));
        }
        end -= 1;
    }
    proof {
        let part = text@.subrange(start as int, end as int);
        if end > start {
            assert(part.last() == text@[end - 1]);
        }
        assert(trim_end(part) == part);
    }
    String::from_str(text.substring_char(start, end))
}

/// The text without its last character; the empty text stays empty.
pub open spec fn without_last(s: Seq<char>) -> Seq<char> {
    if s.len() == 0 {
        s
    } else {
        s.drop_last()
    }
}

/// Removes the last character of a text, if it has one.
pub fn drop_last_char(text: &str) -> (r: String)
    ensures
        r@ == without_last(text@),
{
    let len: usize = text.unicode_len();
    if len == 0 {
        String::from_str(text)
    } else {
        String::from_str(text.substring_char(0, len - 1))
    }
}

/// The position of the last occurrence of a character in a text, if it
/// occurs at all.
pub open spec fn last_index_of(s: Seq<char>, c: char) -> Option<int>
    decreases s.len(),
{
    if s.len() == 0 {
        None
    } else if s.last() == c {
        Some(s.len() - 1)
    } else {
        last_index_of(s.drop_last(), c)
    }
}

/// `last_index_of` finds an occurrence after which the character does not
/// occur again, and finds none only where there is none.
pub proof fn last_index_of_is_last(s: Seq<char>, c: char)
    ensures
        match last_index_of(s, c) {
            Some(i) => 0 <= i < s.len() && s[i] == c && forall|j: int|
                i < j < s.len() ==> s[j] != c,
            None => forall|j: int| 0 <= j < s.len() ==> s[j] != c,
        },
    decreases s.len(),
{
    if s.len() > 0 && s.last() != c {
        let head = s.drop_last();
        last_index_of_is_last(head, c);
        assert(forall|j: int| 0 <= j < head.len() ==> head[j] == s[j]);
    }
}

/// Finds the last occurrence of a character in a text.
pub fn find_last(text: &str, c: char) -> (found: Option<usize>)
    ensures
        match found {
            Some(i) => last_index_of(text@, c) == Some(i as int),
            None => last_index_of(text@, c) is None,
        },
{
    let len: usize = text.unicode_len();
    let mut end: usize = len;
    assert(text@.take(len as int) =~= text@);
    while end > 0
        invariant
            end <= len,
            len == text@.len(),
            last_index_of(text@, c) == last_index_of(text@.take(end as int), c),
        decreases end,
    {
        let ghost head = text@.take(end as int);
        assert(head.last() == text@[end - 1]);
        if text.get_char(end - 1) == c {
            return Some(end - 1);
        }
        assert(head.drop_last() =~= text@.take(end - 1));
        end -= 1;
    }
    None
}

} // verus!
