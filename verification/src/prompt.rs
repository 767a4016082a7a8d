//! Saved prompts, and the record written when a prompt is saved.

use vstd::prelude::*;
use crate::error::StoreError;
use crate::time::{rfc3339, rfc3339_text, utc_now, UtcDateTime};

verus! {

/// A saved prompt, as the store holds it.
#[derive(Debug, Clone, PartialEq, Eq)]
pub struct Prompt {
    pub id: i64,
    pub name: String,
    pub content: String,
    pub tags: String,
    pub source: String,
    pub created_at: String,
}

/// What saving a prompt writes: its name, text, tags, source, and the time
/// of saving.
#[derive(Debug, Clone, PartialEq, Eq)]
pub struct NewPrompt {
    pub name: String,
    pub content: String,
    pub tags: String,
    pub source: String,
    pub created_at: String,
}

/// The record to save for a prompt named `name`, saved at `created_at`.
pub fn new_prompt_at(name: String, content: &str, tags: &str, source: &str, created_at: String) -> (p: NewPrompt)
    ensures
        p.name@ == name@,
        p.content@ == content@,
        p.tags@ == tags@,
        p.source@ == source@,
        p.created_at@ == created_at@,
{
    NewPrompt {
        name,
        content: String::from_str(content),
        tags: String::from_str(tags),
        source: String::from_str(source),
        created_at,
    }
}

/// The record to save for a prompt named `name`, given the clock's reading
/// `now`: stamped with exactly that time in RFC 3339 form, date, time of
/// day and fraction of a second included; `None` (a clock that could not
/// be read) is reported as an error.
pub fn new_prompt_with_time(name: String, content: &str, tags: &str, source: &str, now: Option<
    UtcDateTime,
>) -> (r: Result<NewPrompt, StoreError>)
    ensures
        match now {
            Some(t) => r matches Ok(p) && p.name@ == name@ && p.content@ == content@ && p.tags@
                == tags@ && p.source@ == source@ && p.created_at@ == rfc3339_text(t),
            None => r matches Err(StoreError::ClockUnavailable),
        },
{
    match now {
        Some(t) => Ok(new_prompt_at(name, content, tags, source, rfc3339(&t))),
        None => Err(StoreError::ClockUnavailable),
    }
}

/// The record to save for a prompt named `name`, stamped with the current
/// UTC time in RFC 3339 form; a clock that cannot be read is reported.
pub fn new_prompt(name: String, content: &str, tags: &str, source: &str) -> (r: Result<NewPrompt, StoreError>)
    ensures
        match r {
            Ok(p) => {
                &&& p.name@ == name@
                &&& p.content@ == content@
                &&& p.tags@ == tags@
                &&& p.source@ == source@
                &&& exists|t: UtcDateTime| t.wf() && p.created_at@ == rfc3339_text(t)
            },
            Err(e) => e is ClockUnavailable,
        },
{
    new_prompt_with_time(name, content, tags, source, utc_now())
}

} // verus!
