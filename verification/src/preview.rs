//! One-line previews of saved prompts and the table rows built from them.

use vstd::prelude::*;
use vstd::string::StrSliceExecFns;
use crate::text::take_chars;

verus! {

/// Characters that a preview keeps: all but line feed and carriage return.
pub open spec fn kept_in_preview(c: char) -> bool {
    c != '\n' && c != '\r'
}

/// `s` with its line feeds and carriage returns removed.
pub open spec fn single_line(s: Seq<char>) -> Seq<char> {
    s.filter(|c: char| kept_in_preview(c))
}

/// The preview of `s` within `max` characters: the text on one line, cut to
/// `max` characters and marked with `…` when it is longer.
pub open spec fn preview_of(s: Seq<char>, max: nat) -> Seq<char> {
    let clean = single_line(s);
    if clean.len() <= max {
        clean
    } else {
        clean.take(max as int).push('…')
    }
}

/// Removes the line feeds and carriage returns of `s`.
pub fn strip_line_breaks(s: &str) -> (out: String)
    ensures
        out@ == single_line(s@),
{
    let mut out = String::new();
    for c in it: s.chars()
        invariant
            it.seq() == s@,
            out@ == single_line(s@.take(it.index() as int)),
    {
        proof {
            let done = s@.take(it.index() + 1);
            assert(done.drop_last() == s@.take(it.index() as int));
            assert(done.last() == c);
            reveal_with_fuel(Seq::filter, 1);
        }
        if c != '\n' && c != '\r' {
            out.push(c);
        }
    }
    proof {
        assert(s@.take(s@.len() as int) == s@);
    }
    out
}

/// A one-line preview of `s` of at most `max` characters plus, when the
/// text was cut, a trailing `…`.
pub fn preview(s: &str, max: usize) -> (out: String)
    ensures
        out@ == preview_of(s@, max as nat),
{
    let clean = strip_line_breaks(s);
    let len: usize = clean.as_str().unicode_len();
    if len <= max {
        clean
    } else {
        let mut out = take_chars(clean.as_str(), max);
        out.push('…');
        out
    }
}

/// Every preview is a single line of at most `max + 1` characters, and it
/// equals the one-line text whenever that text fits in `max` characters.
pub proof fn lemma_preview_shape(s: Seq<char>, max: nat)
    ensures
        preview_of(s, max).len() <= max + 1,
        forall|i: int| 0 <= i < preview_of(s, max).len() ==> kept_in_preview(#[trigger] preview_of(s, max)[i]),
        single_line(s).len() <= max ==> preview_of(s, max) == single_line(s),
{
    let clean = single_line(s);
    assert forall|i: int| 0 <= i < clean.len() implies kept_in_preview(#[trigger] clean[i]) by {
        s.lemma_filter_pred(|c: char| kept_in_preview(c), i);
    }
}

} // verus!
