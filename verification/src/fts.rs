//! Quoting of free-text search input for SQLite FTS5: every token is
//! wrapped in double quotes, and quotes inside the input are doubled, so
//! that no input can reach the query syntax.

use vstd::prelude::*;

verus! {

/// The characters that separate search tokens.
pub open spec fn is_token_gap(c: char) -> bool {
    c == ' ' || c == '\t' || c == '\n'
}

/// What the quoting emits for one input character `c`, given whether a
/// token is open: the emitted characters and whether a token is open after.
pub open spec fn quote_step(in_token: bool, c: char) -> (Seq<char>, bool) {
    if c == '"' {
        (seq!['"', '"'], in_token)
    } else if is_token_gap(c) {
        if in_token {
            (seq!['"', c], false)
        } else {
            (seq![c], false)
        }
    } else if !in_token {
        (seq!['"', c], true)
    } else {
        (seq![c], true)
    }
}

/// The output for `q` so far and whether a token is still open at its end.
pub open spec fn quote_scan(q: Seq<char>) -> (Seq<char>, bool)
    decreases q.len(),
{
    if q.len() == 0 {
        (Seq::empty(), false)
    } else {
        let (out, open) = quote_scan(q.drop_last());
        let (more, now_open) = quote_step(open, q.last());
        (out + more, now_open)
    }
}

/// The FTS5 query for the user input `q`: the scan of `q`, a closing quote
/// for a token still open at the end, and `""` for an input that yields
/// nothing.
pub open spec fn fts_query(q: Seq<char>) -> Seq<char> {
    let (out, open) = quote_scan(q);
    let closed = if open { out.push('"') } else { out };
    if closed.len() == 0 {
        seq!['"', '"']
    } else {
        closed
    }
}

/// Turns free text into an FTS5 query that matches its tokens literally.
pub fn sanitize_fts(q: &str) -> (out: String)
    ensures
        out@ == fts_query(q@),
{
    let mut out = String::new();
    let mut in_token = false;
    for c in it: q.chars()
        invariant
            it.seq() == q@,
            (out@, in_token) == quote_scan(q@.take(it.index() as int)),
    {
        proof {
            let done = q@.take(it.index() + 1);
            assert(done.drop_last() == q@.take(it.index() as int));
            assert(done.last() == c);
        }
        if c == '"' {
            out.push('"');
            out.push('"');
        } else if c == ' ' || c == '\t' || c == '\n' {
            if in_token {
                out.push('"');
                out.push(c);
                in_token = false;
            } else {
                out.push(c);
            }
        } else if !in_token {
            out.push('"');
            out.push(c);
            in_token = true;
        } else {
            out.push(c);
        }
    }
    proof {
        assert(q@.take(q@.len() as int) == q@);
    }
    if in_token {
        out.push('"');
    }
    if out.as_str().is_empty() {
        out.push('"');
        out.push('"');
    }
    out
}

/// How many double quotes `s` holds.
pub open spec fn quote_count(s: Seq<char>) -> nat
    decreases s.len(),
{
    if s.len() == 0 {
        0
    } else {
        quote_count(s.drop_last()) + if s.last() == '"' { 1nat } else { 0nat }
    }
}

proof fn lemma_quote_count_concat(a: Seq<char>, b: Seq<char>)
    ensures
        quote_count(a + b) == quote_count(a) + quote_count(b),
    decreases b.len(),
{
    if b.len() == 0 {
        assert(a + b == a);
    } else {
        assert((a + b).drop_last() == a + b.drop_last());
        lemma_quote_count_concat(a, b.drop_last());
    }
}

/// While scanning, the quotes emitted so far are odd in number exactly when
/// a token is open.
proof fn lemma_scan_parity(q: Seq<char>)
    ensures
        (quote_count(quote_scan(q).0) % 2 == 1) == quote_scan(q).1,
    decreases q.len(),
{
    if q.len() > 0 {
        lemma_scan_parity(q.drop_last());
        let (out, open) = quote_scan(q.drop_last());
        let (more, now_open) = quote_step(open, q.last());
        lemma_quote_count_concat(out, more);
        reveal_with_fuel(quote_count, 3);
    }
}

/// Every query that `sanitize_fts` produces is non-empty and holds an even
/// number of double quotes, so every quoted token is closed.
pub proof fn lemma_fts_query_balanced(q: Seq<char>)
    ensures
        fts_query(q).len() > 0,
        quote_count(fts_query(q)) % 2 == 0,
{
    lemma_scan_parity(q);
    let (out, open) = quote_scan(q);
    if open {
        lemma_quote_count_concat(out, seq!['"']);
        assert(out.push('"') == out + seq!['"']);
        reveal_with_fuel(quote_count, 2);
    }
    reveal_with_fuel(quote_count, 3);
}


/// Where a reader of an FTS5 query stands: between terms, inside a quoted
/// string, or just after a quote inside a string (which either closes the
/// string or, doubled, stands for one quote character).
pub enum QueryReadState {
    Between,
    InString,
    AfterQuote,
}

/// One character of an FTS5 query read from `state`: the state after it,
/// and whether the character is allowed there, that is, is not part of a
/// bare (unquoted) term or operator.
pub open spec fn read_step(state: QueryReadState, c: char) -> (QueryReadState, bool) {
    match state {
        QueryReadState::Between => if c == '"' {
            (QueryReadState::InString, true)
        } else {
            (QueryReadState::Between, is_token_gap(c))
        },
        QueryReadState::InString => if c == '"' {
            (QueryReadState::AfterQuote, true)
        } else {
            (QueryReadState::InString, true)
        },
        QueryReadState::AfterQuote => if c == '"' {
            (QueryReadState::InString, true)
        } else {
            (QueryReadState::Between, is_token_gap(c))
        },
    }
}

/// Reading `s` from the start: the state reached, and whether every
/// character outside quoted strings was a gap.
pub open spec fn read_query(s: Seq<char>) -> (QueryReadState, bool)
    decreases s.len(),
{
    if s.len() == 0 {
        (QueryReadState::Between, true)
    } else {
        let (state, ok) = read_query(s.drop_last());
        let (next, step_ok) = read_step(state, s.last());
        (next, ok && step_ok)
    }
}

/// Whether the FTS5 query `s` consists of closed quoted strings separated by
/// gaps only: no bare term, operator, or column filter.
pub open spec fn only_quoted_strings(s: Seq<char>) -> bool {
    let (state, ok) = read_query(s);
    ok && !(state is InString)
}

proof fn lemma_read_push(s: Seq<char>, c: char)
    ensures
        read_query(s.push(c)) == ({
            let (state, ok) = read_query(s);
            let (next, step_ok) = read_step(state, c);
            (next, ok && step_ok)
        }),
{
    assert(s.push(c).drop_last() == s);
}

/// While the input is quoted, a token is open exactly when the reader of
/// the output is inside a string, and nothing was left bare.
proof fn lemma_scan_reads_quoted(q: Seq<char>)
    ensures
        read_query(quote_scan(q).0).1,
        quote_scan(q).1 ==> read_query(quote_scan(q).0).0 is InString,
        !quote_scan(q).1 ==> !(read_query(quote_scan(q).0).0 is InString),
    decreases q.len(),
{
    if q.len() > 0 {
        lemma_scan_reads_quoted(q.drop_last());
        let (out, open) = quote_scan(q.drop_last());
        let c = q.last();
        let (more, now_open) = quote_step(open, c);
        if more.len() == 1 {
            assert(out + more == out.push(more[0]));
            lemma_read_push(out, more[0]);
        } else {
            assert(out + more == out.push(more[0]).push(more[1]));
            lemma_read_push(out, more[0]);
            lemma_read_push(out.push(more[0]), more[1]);
        }
    }
}

/// FTS5 reads every query that `sanitize_fts` produces as closed quoted
/// strings separated by blanks, so no input can smuggle in an operator, a
/// column filter or a bare term.
pub proof fn lemma_fts_query_only_strings(q: Seq<char>)
    ensures
        only_quoted_strings(fts_query(q)),
{
    lemma_scan_reads_quoted(q);
    let (out, open) = quote_scan(q);
    if open {
        lemma_read_push(out, '"');
    }
    let closed = if open { out.push('"') } else { out };
    if closed.len() == 0 {
        assert(seq!['"', '"'] == Seq::<char>::empty().push('"').push('"'));
        lemma_read_push(Seq::<char>::empty(), '"');
        lemma_read_push(Seq::<char>::empty().push('"'), '"');
    }
}


/// `s` with its double quotes left out.
pub open spec fn without_quotes(s: Seq<char>) -> Seq<char> {
    s.filter(|c: char| c != '"')
}

proof fn lemma_without_quotes_concat(a: Seq<char>, b: Seq<char>)
    ensures
        without_quotes(a + b) == without_quotes(a) + without_quotes(b),
{
    Seq::filter_distributes_over_add(a, b, |c: char| c != '"');
}

proof fn lemma_scan_keeps_text(q: Seq<char>)
    ensures
        without_quotes(quote_scan(q).0) == without_quotes(q),
    decreases q.len(),
{
    reveal_with_fuel(Seq::filter, 3);
    if q.len() > 0 {
        lemma_scan_keeps_text(q.drop_last());
        let (out, open) = quote_scan(q.drop_last());
        let c = q.last();
        let (more, now_open) = quote_step(open, c);
        lemma_without_quotes_concat(out, more);
        assert(q == q.drop_last() + seq![c]);
        lemma_without_quotes_concat(q.drop_last(), seq![c]);
        if more.len() == 2 {
            assert(more.drop_last() == seq![more[0]]);
            assert(seq![more[0]].drop_last() == Seq::<char>::empty());
        } else {
            assert(more.drop_last() == Seq::<char>::empty());
        }
        assert(seq![c].drop_last() == Seq::<char>::empty());
    }
}

/// Apart from the quotes it adds or doubles, `sanitize_fts` keeps its input
/// unchanged: with double quotes left out, query and input are equal.
pub proof fn lemma_fts_query_keeps_text(q: Seq<char>)
    ensures
        without_quotes(fts_query(q)) == without_quotes(q),
{
    reveal_with_fuel(Seq::filter, 3);
    lemma_scan_keeps_text(q);
    let (out, open) = quote_scan(q);
    if open {
        lemma_without_quotes_concat(out, seq!['"']);
        assert(out.push('"') == out + seq!['"']);
        assert(seq!['"'].drop_last() == Seq::<char>::empty());
    }
    let closed = if open { out.push('"') } else { out };
    if closed.len() == 0 {
        assert(seq!['"', '"'].drop_last() == seq!['"']);
        assert(seq!['"'].drop_last() == Seq::<char>::empty());
        assert(without_quotes(seq!['"', '"']) == Seq::<char>::empty());
    }
}

} // verus!
