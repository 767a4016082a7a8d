use pinpoint::fts::sanitize_fts;
use pinpoint::input::{prompt_from_args, prompt_from_input, token_estimate};
use pinpoint::preview::{preview, strip_line_breaks};
use pinpoint::text::{decimal_string, is_blank, join_strings, split_whitespace, take_chars, trim_end};

#[test]
fn preview_keeps_short_text() {
    assert_eq!(preview("fix the auth bug in auth.ts", 80), "fix the auth bug in auth.ts");
}

#[test]
fn preview_removes_line_breaks() {
    assert_eq!(preview("line one\nline two\r\nthree", 80), "line oneline twothree");
    assert_eq!(strip_line_breaks("a\r\nb\n"), "ab");
}

#[test]
fn preview_cuts_long_text_with_ellipsis() {
    assert_eq!(preview("abcdefghij", 4), "abcd…");
    assert_eq!(preview("abcd", 4), "abcd");
    assert_eq!(preview("ab\ncd\ne", 4), "abcd…");
    assert_eq!(preview("", 4), "");
}

#[test]
fn preview_counts_characters_not_bytes() {
    assert_eq!(preview("héllo wörld", 5), "héllo…");
    assert_eq!(preview("日本語のテキスト", 3), "日本語…");
}

#[test]
fn preview_of_readme_row() {
    let text = "select id, name from users where created_at > '2024-01-01'";
    assert_eq!(preview(text, 80), text);
    let long: String = "x".repeat(120);
    let p = preview(&long, 100);
    assert_eq!(p.chars().count(), 101);
    assert!(p.ends_with('…'));
}

#[test]
fn sanitize_quotes_each_token() {
    assert_eq!(sanitize_fts("auth"), "\"auth\"");
    assert_eq!(sanitize_fts("window function"), "\"window\" \"function\"");
    assert_eq!(sanitize_fts("a\tb\nc"), "\"a\"\t\"b\"\n\"c\"");
}

#[test]
fn sanitize_doubles_quotes() {
    assert_eq!(sanitize_fts("say \"hi\""), "\"say\" \"\"\"hi\"\"\"");
    assert_eq!(sanitize_fts("\""), "\"\"");
}

#[test]
fn sanitize_empty_and_blank_input() {
    assert_eq!(sanitize_fts(""), "\"\"");
    assert_eq!(sanitize_fts("  "), "  ");
    assert_eq!(sanitize_fts(" x "), " \"x\" ");
}

#[test]
fn sanitize_output_has_balanced_quotes() {
    for q in ["", "a", "\"", "a\"b c\"", "  \"\" x", "OR AND NOT", "col:val*"] {
        let out = sanitize_fts(q);
        assert!(!out.is_empty());
        assert_eq!(out.chars().filter(|c| *c == '"').count() % 2, 0, "query {:?}", q);
    }
}

#[test]
fn sanitize_treats_operators_as_text() {
    assert_eq!(sanitize_fts("a OR b*"), "\"a\" \"OR\" \"b*\"");
}

#[test]
fn take_chars_takes_a_prefix() {
    assert_eq!(take_chars("hello", 3), "hel");
    assert_eq!(take_chars("hi", 3), "hi");
    assert_eq!(take_chars("hi", 0), "");
}

#[test]
fn decimal_numerals() {
    assert_eq!(decimal_string(0), "0");
    assert_eq!(decimal_string(7), "7");
    assert_eq!(decimal_string(50), "50");
    assert_eq!(decimal_string(1234567890), "1234567890");
    assert_eq!(decimal_string(u64::MAX), u64::MAX.to_string());
}

#[test]
fn join_and_split() {
    let words = vec!["a".to_string(), "bc".to_string(), "".to_string(), "d".to_string()];
    assert_eq!(join_strings(&words, "-"), "a-bc--d");
    assert_eq!(join_strings(&Vec::new(), "-"), "");
    assert_eq!(split_whitespace("  fix the\tauth\n bug  "), vec!["fix", "the", "auth", "bug"]);
    assert_eq!(split_whitespace("a\u{3000}b\u{a0}c"), vec!["a", "b", "c"]);
    assert!(split_whitespace(" \n ").is_empty());
}

#[test]
fn trim_end_and_blank() {
    assert_eq!(trim_end("prompt text \n\n"), "prompt text");
    assert_eq!(trim_end("  keep leading"), "  keep leading");
    assert_eq!(trim_end("x\u{2003}"), "x");
    assert!(is_blank(""));
    assert!(is_blank(" \t\n\u{a0}"));
    assert!(!is_blank("  a "));
}

#[test]
fn prompt_text_from_args_and_input() {
    let args = vec!["fix".to_string(), "the".to_string(), "auth bug".to_string()];
    assert_eq!(prompt_from_args(&args), "fix the auth bug");
    assert_eq!(prompt_from_input("remember: format timestamps as ISO\n"), "remember: format timestamps as ISO");
    assert_eq!(prompt_from_args(&Vec::new()), "");
}

#[test]
fn token_estimate_is_a_quarter_of_the_length() {
    assert_eq!(token_estimate(58), 14);
    assert_eq!(token_estimate(27), 6);
    assert_eq!(token_estimate(39), 9);
    assert_eq!(token_estimate(3), 0);
}


/// Reads an FTS5 query the way its string syntax goes and reports whether
/// everything outside quoted strings is a gap and every string is closed.
fn only_quoted_strings(s: &str) -> bool {
    #[derive(PartialEq)]
    enum St {
        Between,
        InString,
        AfterQuote,
    }
    let mut st = St::Between;
    for c in s.chars() {
        let gap = c == ' ' || c == '\t' || c == '\n';
        st = match st {
            St::Between | St::AfterQuote if c != '"' => {
                if !gap {
                    return false;
                }
                St::Between
            }
            St::Between => St::InString,
            St::AfterQuote => St::InString,
            St::InString => {
                if c == '"' {
                    St::AfterQuote
                } else {
                    St::InString
                }
            }
        };
    }
    st != St::InString
}

#[test]
fn sanitized_queries_hold_only_quoted_strings() {
    for q in ["", "auth", "a OR b", "\"", "\"\"", "a\"b", "\" a", "name:x* NEAR(y z)", " \t\n", "x \"y\" z"] {
        let out = sanitize_fts(q);
        assert!(only_quoted_strings(&out), "query {:?} gave {:?}", q, out);
    }
    assert!(!only_quoted_strings("a OR b"));
}

#[test]
fn sanitized_queries_keep_the_text() {
    for q in ["", "auth", "say \"hi\"", "a\"b c", "\"\"\"", " x\ty\nz "] {
        let out = sanitize_fts(q);
        let strip = |s: &str| s.chars().filter(|c| *c != '"').collect::<String>();
        assert_eq!(strip(&out), strip(q), "query {:?}", q);
    }
}

#[test]
fn whitespace_is_the_unicode_set() {
    for c in ['\t', '\n', '\u{b}', '\u{c}', '\r', ' ', '\u{85}', '\u{a0}', '\u{1680}', '\u{2000}', '\u{200a}', '\u{2028}', '\u{2029}', '\u{202f}', '\u{205f}', '\u{3000}'] {
        assert!(is_blank(&c.to_string()), "{:?}", c);
    }
    for c in ['a', '\u{200b}', '\u{180e}', '\u{feff}', '_'] {
        assert!(!is_blank(&c.to_string()), "{:?}", c);
    }
}
