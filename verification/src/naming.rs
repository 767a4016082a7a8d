//! Names for prompts saved without one: the first few words of the prompt,
//! made of letters and digits, lowercased and joined by `-`; then a search,
//! one lookup at a time, for a variant of that name that is still free.

use vstd::prelude::*;
use crate::error::StoreError;
use crate::time::{compact_stamp, compact_text, utc_now, UtcDateTime};
use crate::std_text::unicode_alphanumeric;
use crate::std_text::unicode_lowercase;
use crate::text::{
    decimal, first_chars, join_strings, join_with, lemma_decimal_injective, lemma_decimal_value,
    push_decimal, split_whitespace, take_chars, views, words_of,
};

verus! {

/// How many words of a prompt go into its name.
pub const NAME_WORD_LIMIT: usize = 4;

/// How many characters a name made from words keeps.
pub const NAME_CHAR_LIMIT: usize = 40;

/// The last attempt (counting the plain name as attempt 0) made while
/// looking for a free name; after it the search gives up.
pub const LAST_NAME_ATTEMPT: u32 = 97;

/// The letters and digits of `w`, in order.
pub open spec fn alnum_part(w: Seq<char>) -> Seq<char> {
    w.filter(|c: char| unicode_alphanumeric(c))
}

/// The words of `content` reduced to their letters and digits, with those
/// that keep nothing left out.
pub open spec fn alnum_words(content: Seq<char>) -> Seq<Seq<char>> {
    words_of(content).map_values(|w: Seq<char>| alnum_part(w)).filter(|w: Seq<char>| w.len() > 0)
}

/// The words that go into a name: the first `NAME_WORD_LIMIT` of
/// `alnum_words(content)`.
pub open spec fn name_words(content: Seq<char>) -> Seq<Seq<char>> {
    let all = alnum_words(content);
    if all.len() <= NAME_WORD_LIMIT {
        all
    } else {
        all.take(NAME_WORD_LIMIT as int)
    }
}

/// The name made from the words of `content`: its name words lowercased,
/// joined by `-`, cut to `NAME_CHAR_LIMIT` characters.
pub open spec fn words_name_of(content: Seq<char>) -> Seq<char> {
    first_chars(
        join_with(name_words(content).map_values(|w: Seq<char>| unicode_lowercase(w)), seq!['-']),
        NAME_CHAR_LIMIT as nat,
    )
}

/// The name tried at attempt `attempt` of the search for a free name: the
/// plain name first, then the name with `-2`, `-3`, ... appended.
pub open spec fn name_candidate(base: Seq<char>, attempt: nat) -> Seq<char> {
    if attempt == 0 {
        base
    } else {
        base + seq!['-'] + decimal(attempt + 1)
    }
}

/// Keeps the letters and digits of `w`.
pub fn alnum_chars(w: &str) -> (out: String)
    ensures
        out@ == alnum_part(w@),
{
    let mut out = String::new();
    for c in it: w.chars()
        invariant
            it.seq() == w@,
            out@ == alnum_part(w@.take(it.index() as int)),
    {
        proof {
            let done = w@.take(it.index() + 1);
            assert(done.drop_last() == w@.take(it.index() as int));
            assert(done.last() == c);
            reveal_with_fuel(Seq::filter, 1);
        }
        if c.is_alphanumeric() {
            out.push(c);
        }
    }
    proof {
        assert(w@.take(w@.len() as int) == w@);
    }
    out
}

/// The letters-and-digits parts of the words of `content`, empty ones left
/// out.
pub fn content_words(content: &str) -> (parts: Vec<String>)
    ensures
        views(parts@) == alnum_words(content@),
{
    let words = split_whitespace(content);
    let ghost all = views(words@);
    let mut parts: Vec<String> = Vec::new();
    for i in 0..words.len()
        invariant
            all == views(words@),
            all == words_of(content@),
            views(parts@) == all.take(i as int).map_values(|w: Seq<char>| alnum_part(w)).filter(
                |w: Seq<char>| w.len() > 0,
            ),
    {
        let part = alnum_chars(words[i].as_str());
        let ghost before = parts@;
        proof {
            let mapped = all.take(i + 1).map_values(|w: Seq<char>| alnum_part(w));
            assert(mapped.drop_last() == all.take(i as int).map_values(|w: Seq<char>| alnum_part(w)));
            assert(mapped.last() == part@);
            reveal_with_fuel(Seq::filter, 1);
        }
        if !part.as_str().is_empty() {
            parts.push(part);
            assert(views(parts@) == views(before).push(part@));
        }
    }
    proof {
        assert(all.take(words@.len() as int) == all);
    }
    parts
}

/// The name made from the words of `content`, or `None` when no word of it
/// holds a letter or digit.
pub fn words_name(content: &str) -> (name: Option<String>)
    ensures
        match name {
            Some(n) => name_words(content@).len() > 0 && n@ == words_name_of(content@),
            None => name_words(content@).len() == 0,
        },
{
    let parts = content_words(content);
    if parts.len() == 0 {
        return None;
    }
    let ghost all = views(parts@);
    let ghost kept = name_words(content@);
    let count: usize = if parts.len() <= NAME_WORD_LIMIT { parts.len() } else { NAME_WORD_LIMIT };
    assert(kept == all.take(count as int));
    let mut lowered: Vec<String> = Vec::new();
    for i in 0..count
        invariant
            count <= parts@.len(),
            all == views(parts@),
            kept == all.take(count as int),
            views(lowered@) == kept.take(i as int).map_values(|w: Seq<char>| unicode_lowercase(w)),
    {
        let ghost before = lowered@;
        let low = parts[i].as_str().to_lowercase();
        lowered.push(low);
        proof {
            assert(views(lowered@) == views(before).push(low@));
            assert(kept.take(i + 1).map_values(|w: Seq<char>| unicode_lowercase(w)) == kept.take(
                i as int,
            ).map_values(|w: Seq<char>| unicode_lowercase(w)).push(unicode_lowercase(kept[i as int])));
        }
    }
    proof {
        assert(kept.take(count as int) == kept);
    }
    let joined = join_strings(&lowered, "-");
    proof {
        reveal_strlit("-");
        assert("-"@ == seq!['-']);
        assert(views(lowered@) == kept.map_values(|w: Seq<char>| unicode_lowercase(w)));
        assert(kept.len() == count);
    }
    Some(take_chars(joined.as_str(), NAME_CHAR_LIMIT))
}

/// The name a prompt gets when none is given, before any clash is looked
/// for, when the clock reads `stamp`: the name made from its words, or,
/// when it has no usable word, `pp-` followed by `stamp`.
pub fn name_base_at(content: &str, stamp: &str) -> (base: String)
    ensures
        name_words(content@).len() > 0 ==> base@ == words_name_of(content@),
        name_words(content@).len() == 0 ==> base@ == seq!['p', 'p', '-'] + stamp@,
{
    match words_name(content) {
        Some(name) => name,
        None => timestamp_name(stamp),
    }
}

/// `pp-` followed by `stamp`.
fn timestamp_name(stamp: &str) -> (name: String)
    ensures
        name@ == seq!['p', 'p', '-'] + stamp@,
{
    let mut name = String::new();
    name.push('p');
    name.push('p');
    name.push('-');
    name.append(stamp);
    name
}

/// The name a prompt gets when none is given, before any clash is looked
/// for: the name made from its words or, when it has no usable word, `pp-`
/// followed by the current UTC time in compact form. The clock is read only
/// in that case, and a clock that cannot be read is reported.
pub fn name_base(content: &str) -> (base: Result<String, StoreError>)
    ensures
        name_words(content@).len() > 0 ==> (base matches Ok(b) && b@ == words_name_of(content@)),
        name_words(content@).len() == 0 ==> match base {
            Ok(b) => exists|t: UtcDateTime| t.wf() && b@ == seq!['p', 'p', '-'] + compact_text(t),
            Err(e) => e is ClockUnavailable,
        },
{
    match words_name(content) {
        Some(name) => Ok(name),
        None => match utc_now() {
            Some(t) => {
                let stamp = compact_stamp(&t);
                Ok(name_base_at(content, stamp.as_str()))
            },
            None => Err(StoreError::ClockUnavailable),
        },
    }
}

/// The name tried at attempt `attempt` of the search for a free name.
pub fn candidate_name(base: &str, attempt: u32) -> (name: String)
    ensures
        name@ == name_candidate(base@, attempt as nat),
{
    let mut name = String::from_str(base);
    if attempt > 0 {
        name.push('-');
        push_decimal(&mut name, attempt as u64 + 1);
    }
    name
}

/// What the search for a free name does next.
#[derive(Debug, Clone, PartialEq, Eq)]
pub enum NameStep {
    /// The name just looked up is free: use it.
    Use(String),
    /// The name just looked up is taken: look up this one next.
    Probe { attempt: u32, candidate: String },
}

/// One step of the search for a free name: `taken` tells whether the
/// candidate of attempt `attempt` already names a saved prompt. When the
/// candidate of the last attempt is taken too, the search fails.
pub fn next_name_step(base: &str, attempt: u32, taken: bool) -> (step: Result<NameStep, StoreError>)
    ensures
        !taken ==> (step matches Ok(NameStep::Use(n)) && n@ == name_candidate(base@, attempt as nat)),
        taken && attempt < LAST_NAME_ATTEMPT ==> (step matches Ok(
            NameStep::Probe { attempt: a, candidate: c },
        ) && a == attempt + 1 && c@ == name_candidate(base@, a as nat)),
        taken && attempt >= LAST_NAME_ATTEMPT ==> step matches Err(StoreError::NameSearchExhausted),
{
    if !taken {
        Ok(NameStep::Use(candidate_name(base, attempt)))
    } else if attempt < LAST_NAME_ATTEMPT {
        Ok(NameStep::Probe { attempt: attempt + 1, candidate: candidate_name(base, attempt + 1) })
    } else {
        Err(StoreError::NameSearchExhausted)
    }
}

proof fn lemma_filter_from(s: Seq<Seq<char>>, p: spec_fn(Seq<char>) -> bool, i: int)
    requires
        0 <= i < s.filter(p).len(),
    ensures
        exists|j: int| 0 <= j < s.len() && s.filter(p)[i] == s[j],
    decreases s.len(),
{
    reveal_with_fuel(Seq::filter, 1);
    let rest = s.drop_last().filter(p);
    if i < rest.len() {
        lemma_filter_from(s.drop_last(), p, i);
        let j = choose|j: int| 0 <= j < s.drop_last().len() && rest[i] == s.drop_last()[j];
        assert(s.filter(p)[i] == s[j]);
    } else {
        assert(s.filter(p)[i] == s[s.len() - 1]);
    }
}

/// The words of an auto-name are the first four (or fewer, when there are
/// fewer) of the prompt's words that hold a letter or digit, each reduced
/// to its letters and digits: a word without letters or digits never
/// takes one of the four places, and none of the kept words is empty.
pub proof fn lemma_name_words_first_usable(content: Seq<char>)
    ensures
        name_words(content).len() == if alnum_words(content).len() < 4 {
            alnum_words(content).len()
        } else {
            4
        },
        forall|i: int|
            0 <= i < name_words(content).len() ==> #[trigger] name_words(content)[i] == alnum_words(
                content,
            )[i],
        forall|i: int|
            0 <= i < alnum_words(content).len() ==> (#[trigger] alnum_words(content)[i]).len() > 0,
        forall|i: int, j: int|
            0 <= i < alnum_words(content).len() && 0 <= j < alnum_words(content)[i].len()
                ==> unicode_alphanumeric(#[trigger] alnum_words(content)[i][j]),
{
    let mapped = words_of(content).map_values(|w: Seq<char>| alnum_part(w));
    let nonempty = |w: Seq<char>| w.len() > 0;
    assert forall|i: int| 0 <= i < alnum_words(content).len() implies (
    #[trigger] alnum_words(content)[i]).len() > 0 by {
        mapped.lemma_filter_pred(nonempty, i);
    }
    assert forall|i: int, j: int|
        0 <= i < alnum_words(content).len() && 0 <= j < alnum_words(content)[i].len()
            implies unicode_alphanumeric(#[trigger] alnum_words(content)[i][j]) by {
        lemma_filter_from(mapped, nonempty, i);
        let k = choose|k: int| 0 <= k < mapped.len() && mapped.filter(nonempty)[i] == mapped[k];
        let w = words_of(content)[k];
        assert(alnum_words(content)[i] == alnum_part(w));
        w.lemma_filter_pred(|c: char| unicode_alphanumeric(c), j);
    }
}

/// A name made from words uses at most `NAME_WORD_LIMIT` words and at most
/// `NAME_CHAR_LIMIT` characters.
pub proof fn lemma_words_name_bounded(content: Seq<char>)
    ensures
        name_words(content).len() <= NAME_WORD_LIMIT,
        words_name_of(content).len() <= NAME_CHAR_LIMIT,
{
}

/// Different attempts of the search look up different names, so the name
/// that the search settles on differs from every name it found taken.
pub proof fn lemma_candidates_distinct(base: Seq<char>, i: nat, j: nat)
    requires
        i != j,
    ensures
        name_candidate(base, i) != name_candidate(base, j),
{
    if i == 0 || j == 0 {
        let k: nat = if i == 0 { j } else { i };
        lemma_decimal_value(k + 1);
        assert(name_candidate(base, k).len() > base.len());
    } else {
        let ci = name_candidate(base, i);
        let cj = name_candidate(base, j);
        if ci == cj {
            let start = base.len() + 1;
            assert(ci.subrange(start as int, ci.len() as int) == decimal(i + 1));
            assert(cj.subrange(start as int, cj.len() as int) == decimal(j + 1));
            lemma_decimal_injective(i + 1, j + 1);
        }
    }
}

} // verus!
