use pinpoint::error::StoreError;
use pinpoint::lookup::{
    after_exact_delete, after_exact_lookup, confirm_saved, prefix_patterns, resolve_prefix_lookup,
    resolve_prefix_removal, Lookup, PrefixRemoval, Removal,
};
use pinpoint::prompt::{new_prompt, new_prompt_at};
use pinpoint::query::{
    contains_like, list_query, FIND_SQL, LIST_ORDER_SQL, LIST_SELECT_SQL, SOURCE_FILTER_SQL,
    TAG_FILTER_SQL,
};
use pinpoint::Prompt;

fn prompt(id: i64, name: &str) -> Prompt {
    Prompt {
        id,
        name: name.to_string(),
        content: format!("content of {}", name),
        tags: String::new(),
        source: String::new(),
        created_at: "2024-07-19T16:51:00+00:00".to_string(),
    }
}

#[test]
fn exact_match_wins() {
    let p = prompt(1, "fix");
    assert_eq!(after_exact_lookup("fix", Some(p.clone())), Lookup::Found(p));
}

#[test]
fn missing_exact_match_searches_prefixes() {
    match after_exact_lookup("fix", None) {
        Lookup::SearchPrefix(pats) => {
            assert_eq!(pats.starts_with, "fix%");
            assert_eq!(pats.starts_with_dash, "fix-%");
        }
        other => panic!("unexpected {:?}", other),
    }
    let pats = prefix_patterns("sql");
    assert_eq!((pats.starts_with.as_str(), pats.starts_with_dash.as_str()), ("sql%", "sql-%"));
}

#[test]
fn prefix_patterns_escape_wildcards() {
    let pats = prefix_patterns("f_x%\\");
    assert_eq!(pats.starts_with, "f\\_x\\%\\\\%");
    assert_eq!(pats.starts_with_dash, "f\\_x\\%\\\\-%");
}

#[test]
fn prefix_lookup_with_one_match_finds_it() {
    let p = prompt(2, "fix-the-auth-bug");
    assert_eq!(resolve_prefix_lookup("fix", vec![p.clone()]), Ok(Some(p)));
}

#[test]
fn prefix_lookup_without_match_finds_nothing() {
    assert_eq!(resolve_prefix_lookup("nope", Vec::new()), Ok(None));
}

#[test]
fn prefix_lookup_with_several_matches_is_ambiguous() {
    let r = resolve_prefix_lookup("fix", vec![prompt(1, "fix-a"), prompt(2, "fix-b")]);
    assert_eq!(
        r,
        Err(StoreError::AmbiguousPrefix {
            prefix: "fix".to_string(),
            matches: vec!["fix-a".to_string(), "fix-b".to_string()],
        })
    );
}

#[test]
fn exact_delete_is_final() {
    assert_eq!(after_exact_delete("fix", 1), Removal::Removed);
    match after_exact_delete("fix", 0) {
        Removal::SearchPrefix(pats) => {
            assert_eq!(pats.starts_with, "fix%");
            assert_eq!(pats.starts_with_dash, "fix-%");
        }
        other => panic!("unexpected {:?}", other),
    }
}

#[test]
fn prefix_removal_needs_a_single_match() {
    assert_eq!(resolve_prefix_removal("fix", Vec::new()), Ok(PrefixRemoval::NothingMatched));
    assert_eq!(
        resolve_prefix_removal("fix", vec!["fix-the-auth-bug".to_string()]),
        Ok(PrefixRemoval::RemoveOnly("fix-the-auth-bug".to_string()))
    );
    assert_eq!(
        resolve_prefix_removal("f", vec!["fix".to_string(), "foo".to_string()]),
        Err(StoreError::AmbiguousPrefix {
            prefix: "f".to_string(),
            matches: vec!["fix".to_string(), "foo".to_string()],
        })
    );
}

#[test]
fn saving_confirms_the_read_back() {
    let p = prompt(3, "sql");
    assert_eq!(confirm_saved("sql", Some(p.clone())), Ok(p));
    assert_eq!(
        confirm_saved("sql", None),
        Err(StoreError::MissingAfterSave { name: "sql".to_string() })
    );
}

#[test]
fn new_prompt_keeps_fields_and_stamps_time() {
    let p = new_prompt("sql".to_string(), "select 1", "sql,pg", "editor").unwrap();
    assert_eq!(p.name, "sql");
    assert_eq!(p.content, "select 1");
    assert_eq!(p.tags, "sql,pg");
    assert_eq!(p.source, "editor");
    assert!(p.created_at.ends_with("+00:00"));
    assert!(p.created_at.contains('T'));
    assert!(p.created_at.starts_with("20"));
}

#[test]
fn new_prompt_at_keeps_the_given_time() {
    let p = new_prompt_at(
        "sql".to_string(),
        "select 1",
        "",
        "shell",
        "2024-07-19T16:51:00+00:00".to_string(),
    );
    assert_eq!(p.created_at, "2024-07-19T16:51:00+00:00");
    assert_eq!(p.name, "sql");
    assert_eq!(p.tags, "");
    assert_eq!(p.source, "shell");
}

#[test]
fn list_query_without_filters() {
    let q = list_query(None, None, 50);
    assert_eq!(
        q.sql,
        "SELECT id, name, content, tags, source, created_at FROM prompts WHERE 1=1 ORDER BY created_at DESC LIMIT ?"
    );
    assert_eq!(q.args, vec!["50".to_string()]);
}

#[test]
fn list_query_with_filters() {
    let q = list_query(Some("sql"), Some("edit"), 7);
    assert_eq!(
        q.sql,
        format!("{}{}{}{}", LIST_SELECT_SQL, TAG_FILTER_SQL, SOURCE_FILTER_SQL, LIST_ORDER_SQL)
    );
    assert_eq!(q.args, vec!["%sql%".to_string(), "%edit%".to_string(), "7".to_string()]);
    let q = list_query(None, Some("memory"), 0);
    assert_eq!(q.args, vec!["%memory%".to_string(), "0".to_string()]);
    assert_eq!(q.sql.matches('?').count(), q.args.len());
}

#[test]
fn list_query_placeholders_match_arguments() {
    for (t, s) in [(None, None), (Some("a"), None), (None, Some("b")), (Some("a"), Some("b"))] {
        let q = list_query(t, s, 20);
        assert_eq!(q.sql.matches('?').count(), q.args.len());
    }
}

#[test]
fn like_pattern_wraps_text() {
    assert_eq!(contains_like("bug"), "%bug%");
    assert_eq!(contains_like(""), "%%");
    assert_eq!(contains_like("50%_off"), "%50\\%\\_off%");
}

#[test]
fn find_query_takes_match_and_limit() {
    assert_eq!(FIND_SQL.matches('?').count(), 2);
    assert!(FIND_SQL.contains("MATCH ?"));
}
