use pinpoint::naming::{
    alnum_chars, candidate_name, content_words, name_base, name_base_at, next_name_step, words_name, NameStep,
    LAST_NAME_ATTEMPT,
};
use pinpoint::error::StoreError;

#[test]
fn readme_auto_names() {
    assert_eq!(
        words_name("select id, name from users where created_at > '2024-01-01'").as_deref(),
        Some("select-id-name-from")
    );
    assert_eq!(words_name("fix the auth bug in auth.ts").as_deref(), Some("fix-the-auth-bug"));
    assert_eq!(
        words_name("remember: format timestamps as ISO 8601").as_deref(),
        Some("remember-format-timestamps-as")
    );
}

#[test]
fn auto_name_drops_punctuation_only_words() {
    assert_eq!(words_name("-- fix -- it --").as_deref(), Some("fix-it"));
    assert_eq!(words_name("Hello, World!").as_deref(), Some("hello-world"));
    assert_eq!(content_words("a-b c_d !!"), vec!["ab", "cd"]);
    assert_eq!(alnum_chars("a.b,c1"), "abc1");
}

#[test]
fn auto_name_is_cut_to_forty_characters() {
    let name = words_name("abcdefghijklmnopqrstuvwxyz abcdefghijklmnopqrstuvwxyz").unwrap();
    assert_eq!(name, "abcdefghijklmnopqrstuvwxyz-abcdefghijklm");
    assert_eq!(name.chars().count(), 40);
}

#[test]
fn auto_name_lowercases_unicode() {
    assert_eq!(words_name("ÉCOLE Über Straße").as_deref(), Some("école-über-straße"));
}

#[test]
fn auto_name_without_words_uses_timestamp() {
    assert_eq!(words_name("!!! ??? ..."), None);
    assert_eq!(words_name("   "), None);
    let base = name_base("!!! ???").unwrap();
    assert!(base.starts_with("pp-20"));
    assert_eq!(base.len(), "pp-20240719-165100".len());
    assert_eq!(&base[11..12], "-");
    assert_eq!(name_base("Fix it"), Ok("fix-it".to_string()));
}

#[test]
fn name_base_at_uses_the_stamp_only_without_words() {
    assert_eq!(name_base_at("?? !!", "20240719-165100"), "pp-20240719-165100");
    assert_eq!(name_base_at("", "20240101-000000"), "pp-20240101-000000");
    assert_eq!(name_base_at("fix the bug", "20240719-165100"), "fix-the-bug");
}

#[test]
fn candidates_append_counters() {
    assert_eq!(candidate_name("fix", 0), "fix");
    assert_eq!(candidate_name("fix", 1), "fix-2");
    assert_eq!(candidate_name("fix", 2), "fix-3");
    assert_eq!(candidate_name("fix", 97), "fix-98");
}

#[test]
fn free_name_is_used() {
    assert_eq!(next_name_step("fix", 0, false), Ok(NameStep::Use("fix".to_string())));
    assert_eq!(next_name_step("fix", 5, false), Ok(NameStep::Use("fix-6".to_string())));
}

#[test]
fn taken_name_moves_to_next_candidate() {
    assert_eq!(
        next_name_step("fix", 0, true),
        Ok(NameStep::Probe { attempt: 1, candidate: "fix-2".to_string() })
    );
    assert_eq!(
        next_name_step("fix", 96, true),
        Ok(NameStep::Probe { attempt: 97, candidate: "fix-98".to_string() })
    );
}

#[test]
fn search_gives_up_after_last_attempt() {
    assert_eq!(LAST_NAME_ATTEMPT, 97);
    assert_eq!(next_name_step("fix", 97, true), Err(StoreError::NameSearchExhausted));
    assert_eq!(next_name_step("fix", 97, false), Ok(NameStep::Use("fix-98".to_string())));
}

#[test]
fn search_tries_ninety_eight_distinct_names() {
    let mut tried = vec!["fix".to_string()];
    let mut attempt = 0;
    loop {
        match next_name_step("fix", attempt, true) {
            Ok(NameStep::Probe { attempt: a, candidate }) => {
                assert!(!tried.contains(&candidate));
                tried.push(candidate);
                attempt = a;
            }
            Err(StoreError::NameSearchExhausted) => break,
            other => panic!("unexpected step {:?}", other),
        }
    }
    assert_eq!(tried.len(), 98);
    assert_eq!(tried.last().unwrap(), "fix-98");
}

#[test]
fn ascii_names_lowercase_letters_only() {
    assert_eq!(words_name("SELECT Id, NAME_x FROM t1").as_deref(), Some("select-id-namex-from"));
    assert_eq!(words_name("a b").as_deref(), Some("a-b"));
}
