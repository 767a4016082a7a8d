//! The prompt text of a `log` command, from its arguments or from what was
//! piped in.

use vstd::prelude::*;
use crate::text::{join_strings, join_with, trim_end, trim_end_of, views};

verus! {

/// The prompt given as arguments: the arguments joined by single spaces.
pub fn prompt_from_args(words: &Vec<String>) -> (text: String)
    ensures
        text@ == join_with(views(words@), seq![' ']),
{
    let text = join_strings(words, " ");
    proof {
        reveal_strlit(" ");
        assert(" "@ == seq![' ']);
    }
    text
}

/// The prompt piped in on standard input, without its trailing whitespace.
pub fn prompt_from_input(input: &str) -> (text: String)
    ensures
        text@ == trim_end_of(input@),
{
    trim_end(input)
}

/// The rough token count reported for a prompt of `byte_len` bytes: one
/// token per four bytes, rounded down.
pub fn token_estimate(byte_len: usize) -> (tokens: usize)
    ensures
        tokens == byte_len / 4,
{
    byte_len / 4
}

} // verus!
