//! The decisions of looking a prompt up, or removing one, by name: the
//! exact name first, then a prefix of names, which must pick out one
//! prompt alone.

use vstd::prelude::*;
use crate::error::StoreError;
use crate::like::{
    escaped_like, lemma_escaped_reads_literally, like_tokens, literal, literal_tokens, push_escaped_like,
    LikeToken,
};
use crate::prompt::Prompt;
use crate::text::views;

verus! {

/// The two `LIKE` patterns of a prefix search: the name (escaped) followed
/// by `%`, and the name followed by `-%`.
#[derive(Debug, Clone, PartialEq, Eq)]
pub struct PrefixPatterns {
    pub starts_with: String,
    pub starts_with_dash: String,
}

/// The pattern for names that begin with `name`.
pub open spec fn starts_with_pattern(name: Seq<char>) -> Seq<char> {
    escaped_like(name) + seq!['%']
}

/// The pattern for names that begin with `name` and a dash.
pub open spec fn starts_with_dash_pattern(name: Seq<char>) -> Seq<char> {
    escaped_like(name) + seq!['-', '%']
}

/// The prefix patterns ask for the characters of `name` one by one, then
/// any run of characters (after a dash, for the second): no character of
/// the name acts as a wildcard. (SQLite's `LIKE` still matches ASCII
/// letters in either case.)
pub proof fn lemma_prefix_patterns_literal(name: Seq<char>)
    ensures
        like_tokens(starts_with_pattern(name)) == literal_tokens(name) + seq![LikeToken::AnyRun],
        like_tokens(starts_with_dash_pattern(name)) == literal_tokens(name) + seq![
            literal('-'),
            LikeToken::AnyRun,
        ],
{
    lemma_escaped_reads_literally(name, seq!['%']);
    lemma_escaped_reads_literally(name, seq!['-', '%']);
    assert(seq!['%'].skip(1) =~= Seq::<char>::empty());
    assert(seq!['-', '%'].skip(1) =~= seq!['%']);
    assert(seq![LikeToken::AnyRun] + Seq::<LikeToken>::empty() =~= seq![LikeToken::AnyRun]);
    assert(like_tokens(Seq::<char>::empty()) == Seq::<LikeToken>::empty());
    assert(like_tokens(seq!['%']) == seq![LikeToken::AnyRun] + like_tokens(seq!['%'].skip(1)));
    assert(like_tokens(seq!['%']) == seq![LikeToken::AnyRun]);
    assert(like_tokens(seq!['-', '%']) == seq![literal('-')] + like_tokens(seq!['%']));
    assert(seq![literal('-')] + seq![LikeToken::AnyRun] =~= seq![literal('-'), LikeToken::AnyRun]);
}

/// The patterns of the prefix search for `name`.
pub fn prefix_patterns(name: &str) -> (p: PrefixPatterns)
    ensures
        p.starts_with@ == starts_with_pattern(name@),
        p.starts_with_dash@ == starts_with_dash_pattern(name@),
{
    let mut starts_with = String::new();
    push_escaped_like(&mut starts_with, name);
    starts_with.push('%');
    let mut starts_with_dash = String::new();
    push_escaped_like(&mut starts_with_dash, name);
    starts_with_dash.push('-');
    starts_with_dash.push('%');
    PrefixPatterns { starts_with, starts_with_dash }
}

/// What a lookup does after asking for the exact name.
#[derive(Debug, Clone, PartialEq, Eq)]
pub enum Lookup {
    /// A prompt has exactly the name asked for.
    Found(Prompt),
    /// No prompt has that name: search the names with these patterns.
    SearchPrefix(PrefixPatterns),
}

/// The step after the exact-name query of a lookup of `name`, whose answer
/// is `exact`: an exact match is the answer, whatever prefixes would match.
pub fn after_exact_lookup(name: &str, exact: Option<Prompt>) -> (step: Lookup)
    ensures
        match exact {
            Some(p) => step == Lookup::Found(p),
            None => step matches Lookup::SearchPrefix(pats)
                && pats.starts_with@ == starts_with_pattern(name@)
                && pats.starts_with_dash@ == starts_with_dash_pattern(name@),
        },
{
    match exact {
        Some(p) => Lookup::Found(p),
        None => Lookup::SearchPrefix(prefix_patterns(name)),
    }
}

/// The names of `prompts`, in order.
pub open spec fn names_of(prompts: Seq<Prompt>) -> Seq<Seq<char>> {
    prompts.map_values(|p: Prompt| p.name@)
}

/// Copies the names of `prompts`, in order.
pub fn prompt_names(prompts: &Vec<Prompt>) -> (names: Vec<String>)
    ensures
        views(names@) == names_of(prompts@),
{
    let mut names: Vec<String> = Vec::new();
    for i in 0..prompts.len()
        invariant
            views(names@) == names_of(prompts@.take(i as int)),
    {
        let ghost before = names@;
        names.push(prompts[i].name.clone());
        proof {
            assert(views(names@) == views(before).push(prompts@[i as int].name@));
            assert(prompts@.take(i + 1) == prompts@.take(i as int).push(prompts@[i as int]));
        }
    }
    proof {
        assert(prompts@.take(prompts@.len() as int) == prompts@);
    }
    names
}

/// The answer of a lookup of `name` that found no exact match, from the
/// prompts that the prefix search returned: none found, the one found, or
/// an ambiguity naming all of them.
pub fn resolve_prefix_lookup(name: &str, matches: Vec<Prompt>) -> (r: Result<Option<Prompt>, StoreError>)
    ensures
        matches@.len() == 0 ==> r == Ok::<Option<Prompt>, StoreError>(None),
        matches@.len() == 1 ==> r == Ok::<Option<Prompt>, StoreError>(Some(matches@[0])),
        matches@.len() > 1 ==> (r matches Err(StoreError::AmbiguousPrefix { prefix, matches: found })
            && prefix@ == name@ && views(found@) == names_of(matches@)),
{
    if matches.len() == 0 {
        Ok(None)
    } else if matches.len() == 1 {
        let mut matches = matches;
        let only = matches.remove(0);
        Ok(Some(only))
    } else {
        let found = prompt_names(&matches);
        Err(StoreError::AmbiguousPrefix { prefix: String::from_str(name), matches: found })
    }
}

/// What a removal does after deleting by the exact name.
#[derive(Debug, Clone, PartialEq, Eq)]
pub enum Removal {
    /// A prompt with exactly that name was removed.
    Removed,
    /// None had that name: list the names matching these patterns.
    SearchPrefix(PrefixPatterns),
}

/// The step after deleting the prompt named exactly `name`, which removed
/// `deleted` rows.
pub fn after_exact_delete(name: &str, deleted: usize) -> (step: Removal)
    ensures
        deleted > 0 ==> step is Removed,
        deleted == 0 ==> (step matches Removal::SearchPrefix(pats)
            && pats.starts_with@ == starts_with_pattern(name@)
            && pats.starts_with_dash@ == starts_with_dash_pattern(name@)),
{
    if deleted > 0 {
        Removal::Removed
    } else {
        Removal::SearchPrefix(prefix_patterns(name))
    }
}

/// What a removal by prefix does with the names the prefix matched.
#[derive(Debug, Clone, PartialEq, Eq)]
pub enum PrefixRemoval {
    /// Nothing matched: nothing is removed.
    NothingMatched,
    /// Exactly this one name matched: remove the prompt of that name.
    RemoveOnly(String),
}

/// The decision of a removal by the prefix `name`, from the names that
/// matched it: a removal happens only when a single name matched, so a
/// prefix never removes more than one prompt.
pub fn resolve_prefix_removal(name: &str, names: Vec<String>) -> (r: Result<PrefixRemoval, StoreError>)
    ensures
        names@.len() == 0 ==> r matches Ok(PrefixRemoval::NothingMatched),
        names@.len() == 1 ==> (r matches Ok(PrefixRemoval::RemoveOnly(n)) && n@ == names@[0]@),
        names@.len() > 1 ==> (r matches Err(StoreError::AmbiguousPrefix { prefix, matches })
            && prefix@ == name@ && views(matches@) == views(names@)),
{
    if names.len() == 0 {
        Ok(PrefixRemoval::NothingMatched)
    } else if names.len() == 1 {
        let mut names = names;
        let only = names.remove(0);
        Ok(PrefixRemoval::RemoveOnly(only))
    } else {
        Err(StoreError::AmbiguousPrefix { prefix: String::from_str(name), matches: names })
    }
}

/// The result of saving a prompt under `name`, from reading it back: the
/// prompt read, or an error when nothing came back.
pub fn confirm_saved(name: &str, read_back: Option<Prompt>) -> (r: Result<Prompt, StoreError>)
    ensures
        match read_back {
            Some(p) => r == Ok::<Prompt, StoreError>(p),
            None => r matches Err(StoreError::MissingAfterSave { name: n }) && n@ == name@,
        },
{
    match read_back {
        Some(p) => Ok(p),
        None => Err(StoreError::MissingAfterSave { name: String::from_str(name) }),
    }
}

} // verus!
