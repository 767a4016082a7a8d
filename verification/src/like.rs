//! `LIKE` patterns built from user text: every `\`, `%` and `_` of the text
//! is escaped with `\` (the queries name `\` as their escape character), so
//! no character of the text acts as a wildcard and only the wildcards the
//! library adds do. Each character of the text still matches as SQLite's
//! `LIKE` matches a plain character: ASCII letters without regard to case
//! (`FIX` matches `fix`), every other character exactly.

use vstd::prelude::*;

verus! {

/// The characters that a `LIKE` pattern gives a meaning: the escape
/// character and the two wildcards.
pub open spec fn like_special(c: char) -> bool {
    c == '\\' || c == '%' || c == '_'
}

/// `c` as it stands in a pattern: escaped when it is special.
pub open spec fn escaped_char(c: char) -> Seq<char> {
    if like_special(c) {
        seq!['\\', c]
    } else {
        seq![c]
    }
}

/// `s` with each special character escaped.
pub open spec fn escaped_like(s: Seq<char>) -> Seq<char>
    decreases s.len(),
{
    if s.len() == 0 {
        Seq::empty()
    } else {
        escaped_like(s.drop_last()) + escaped_char(s.last())
    }
}

/// What a `LIKE` pattern with escape character `\` asks for at one place.
#[derive(Debug, Clone, Copy, PartialEq, Eq, Structural)]
pub enum LikeToken {
    /// This character (SQLite's `LIKE` matches an ASCII letter in either
    /// case).
    Literal(char),
    /// Any run of characters (`%`).
    AnyRun,
    /// Any one character (`_`).
    AnyOne,
}

/// The pattern `p` read with escape character `\`: an escaped character
/// stands for itself, `%` and `_` are wildcards, and every other character
/// stands for itself.
pub open spec fn like_tokens(p: Seq<char>) -> Seq<LikeToken>
    decreases p.len(),
{
    if p.len() == 0 {
        Seq::empty()
    } else if p[0] == '\\' && p.len() >= 2 {
        seq![literal(p[1])] + like_tokens(p.skip(2))
    } else if p[0] == '%' {
        seq![LikeToken::AnyRun] + like_tokens(p.skip(1))
    } else if p[0] == '_' {
        seq![LikeToken::AnyOne] + like_tokens(p.skip(1))
    } else {
        seq![literal(p[0])] + like_tokens(p.skip(1))
    }
}

/// The token that matches the character `c` (an ASCII letter in either
/// case), as opposed to a wildcard.
pub open spec fn literal(c: char) -> LikeToken {
    LikeToken::Literal(c)
}

/// The tokens that match the characters of `s` one by one, with no
/// wildcard among them.
pub open spec fn literal_tokens(s: Seq<char>) -> Seq<LikeToken>
    decreases s.len(),
{
    if s.len() == 0 {
        Seq::empty()
    } else {
        seq![literal(s[0])] + literal_tokens(s.skip(1))
    }
}

/// Appends `s` to `out` with its special characters escaped.
pub fn push_escaped_like(out: &mut String, s: &str)
    ensures
        final(out)@ == old(out)@ + escaped_like(s@),
{
    for c in it: s.chars()
        invariant
            it.seq() == s@,
            out@ == old(out)@ + escaped_like(s@.take(it.index() as int)),
    {
        proof {
            let done = s@.take(it.index() + 1);
            assert(done.drop_last() == s@.take(it.index() as int));
            assert(done.last() == c);
        }
        if c == '\\' || c == '%' || c == '_' {
            out.push('\\');
        }
        out.push(c);
    }
    proof {
        assert(s@.take(s@.len() as int) == s@);
    }
}

proof fn lemma_escaped_prepend(c: char, s: Seq<char>)
    ensures
        escaped_like(seq![c] + s) == escaped_char(c) + escaped_like(s),
    decreases s.len(),
{
    if s.len() == 0 {
        assert(seq![c] + s =~= seq![c]);
        assert(seq![c].drop_last() =~= Seq::<char>::empty());
        assert(escaped_like(Seq::<char>::empty()) == Seq::<char>::empty());
        assert(escaped_like(seq![c]) == escaped_like(seq![c].drop_last()) + escaped_char(c));
        assert(Seq::<char>::empty() + escaped_char(c) =~= escaped_char(c));
        assert(escaped_char(c) + escaped_like(s) =~= escaped_char(c));
    } else {
        assert((seq![c] + s).drop_last() =~= seq![c] + s.drop_last());
        assert((seq![c] + s).last() == s.last());
        lemma_escaped_prepend(c, s.drop_last());
        assert(escaped_char(c) + escaped_like(s) =~= escaped_char(c) + escaped_like(s.drop_last())
            + escaped_char(s.last()));
    }
}

/// Reading an escaped text followed by any pattern `rest` gives the
/// characters of the text literally, then the reading of `rest`.
pub proof fn lemma_escaped_reads_literally(s: Seq<char>, rest: Seq<char>)
    ensures
        like_tokens(escaped_like(s) + rest) == literal_tokens(s) + like_tokens(rest),
    decreases s.len(),
{
    if s.len() > 0 {
        let c = s[0];
        let tail = s.skip(1);
        assert(s == seq![c] + tail);
        lemma_escaped_prepend(c, tail);
        lemma_escaped_reads_literally(tail, rest);
        let p = escaped_like(s) + rest;
        let inner = escaped_like(tail) + rest;
        assert(escaped_like(s) == escaped_char(c) + escaped_like(tail));
        if like_special(c) {
            assert(p =~= seq!['\\', c] + inner);
            assert(p[0] == '\\' && p[1] == c && p.len() >= 2);
            assert(p.skip(2) =~= inner);
            assert(like_tokens(p) == seq![literal(c)] + like_tokens(inner));
        } else {
            assert(p =~= seq![c] + inner);
            assert(p[0] == c && c != '\\' && c != '%' && c != '_');
            assert(p.skip(1) =~= inner);
            assert(like_tokens(p) == seq![literal(c)] + like_tokens(inner));
        }
        assert(s.len() > 0 && s[0] == c);
        assert(literal_tokens(s) == seq![literal(s[0])] + literal_tokens(s.skip(1)));
        assert(seq![literal(c)] + (literal_tokens(tail) + like_tokens(rest)) =~= (seq![
            literal(c),
        ] + literal_tokens(tail)) + like_tokens(rest));
    } else {
        assert(escaped_like(s) + rest =~= rest);
        assert(literal_tokens(s) + like_tokens(rest) =~= like_tokens(rest));
    }
}

} // verus!
