use pinpoint::paths::{data_dir_plan, DataDirBase, DB_FILE_NAME};
use pinpoint::rows::{field_or_dash, find_row, find_table, list_row, list_table};
use pinpoint::shell::{clipboard_commands, init_script, Platform, Shell, FISH_INIT, POSIX_SHELL_INIT};
use pinpoint::Prompt;

fn sample() -> Prompt {
    Prompt {
        id: 1,
        name: "fix-the-auth-bug".to_string(),
        content: "fix the auth bug in auth.ts".to_string(),
        tags: "bug,auth".to_string(),
        source: String::new(),
        created_at: "2024-07-19T16:51:00+00:00".to_string(),
    }
}

#[test]
fn empty_fields_show_a_dash() {
    assert_eq!(field_or_dash(""), "-");
    assert_eq!(field_or_dash("sql"), "sql");
}

#[test]
fn list_row_fields() {
    let row = list_row(&sample(), "07-19 16:51".to_string());
    assert_eq!(row.when, "07-19 16:51");
    assert_eq!(row.name, "fix-the-auth-bug");
    assert_eq!(row.tags, "bug,auth");
    assert_eq!(row.source, "-");
    assert_eq!(row.preview, "fix the auth bug in auth.ts");
}

#[test]
fn find_row_fields() {
    let mut p = sample();
    p.content = "y".repeat(150);
    p.tags = String::new();
    let row = find_row(&p);
    assert_eq!(row.name, "fix-the-auth-bug");
    assert_eq!(row.tags, "-");
    assert_eq!(row.preview, format!("{}…", "y".repeat(100)));
}

#[test]
fn bash_and_zsh_share_a_script() {
    assert_eq!(init_script(Shell::Bash), init_script(Shell::Zsh));
    assert_eq!(init_script(Shell::Bash), POSIX_SHELL_INIT);
    assert_eq!(init_script(Shell::Fish), FISH_INIT);
}

#[test]
fn posix_script_defines_pp() {
    let s = init_script(Shell::Bash);
    assert!(s.starts_with("# Add to ~/.bashrc or ~/.zshrc:\n"));
    assert!(s.contains("\npp() {\n"));
    assert!(s.contains("#   pp-fix() { pp \"$1\" --tags fix; }\n\n"));
    assert!(s.contains("command pinpoint log \"$@\" --source \"${PP_SOURCE:-shell}\"\n"));
    assert!(!s.contains("args[*]"));
    assert!(s.ends_with("    fi\n}\n"));
}

#[test]
fn fish_script_defines_pp() {
    let s = init_script(Shell::Fish);
    assert!(s.starts_with("# Add to ~/.config/fish/config.fish:\nfunction pp\n"));
    assert!(s.contains("command pinpoint log $argv --source \"$PP_SOURCE\"\n"));
    assert!(s.ends_with("    end\nend\n"));
}

#[test]
fn clipboard_programs_per_platform() {
    let w = clipboard_commands(Platform::Windows);
    assert_eq!(w.len(), 1);
    assert_eq!(w[0].program, "clip");
    assert!(w[0].args.is_empty());
    let m = clipboard_commands(Platform::MacOs);
    assert_eq!(m.len(), 1);
    assert_eq!(m[0].program, "pbcopy");
    let o = clipboard_commands(Platform::Other);
    assert_eq!(o.len(), 2);
    assert_eq!(o[0].program, "wl-copy");
    assert!(o[0].args.is_empty());
    assert_eq!(o[1].program, "xclip");
    assert_eq!(o[1].args, vec!["-selection".to_string(), "clipboard".to_string()]);
}

#[test]
fn data_dir_choices() {
    let p = data_dir_plan(true, true);
    assert_eq!(p.base, DataDirBase::PinpointDataDir);
    assert!(p.subdirs.is_empty());
    let p = data_dir_plan(false, true);
    assert_eq!(p.base, DataDirBase::XdgDataHome);
    assert_eq!(p.subdirs, vec!["pinpoint".to_string()]);
    let p = data_dir_plan(false, false);
    assert_eq!(p.base, DataDirBase::Home);
    assert_eq!(p.subdirs, vec![".local".to_string(), "share".to_string(), "pinpoint".to_string()]);
    assert_eq!(DB_FILE_NAME, "pinpoint.db");
}

#[test]
fn list_table_draws_header_and_rows() {
    let row = list_row(&sample(), "07-19 16:51".to_string());
    let expected = "\
+-------------+------------------+----------+--------+-----------------------------+
| saved       | name             | tags     | source | preview                     |
+-------------+------------------+----------+--------+-----------------------------+
| 07-19 16:51 | fix-the-auth-bug | bug,auth | -      | fix the auth bug in auth.ts |
+-------------+------------------+----------+--------+-----------------------------+";
    assert_eq!(list_table(&vec![row]), expected);
}

#[test]
fn find_table_draws_header_and_rows() {
    let rows = vec![find_row(&sample())];
    let expected = "\
+------------------+----------+-----------------------------+
| name             | tags     | match                       |
+------------------+----------+-----------------------------+
| fix-the-auth-bug | bug,auth | fix the auth bug in auth.ts |
+------------------+----------+-----------------------------+";
    assert_eq!(find_table(&rows), expected);
}

#[test]
fn empty_table_has_only_the_header() {
    let expected = "\
+-------+------+------+--------+---------+
| saved | name | tags | source | preview |
+-------+------+------+--------+---------+";
    assert_eq!(list_table(&Vec::new()), expected);
}
