use pinpoint::lookup::prefix_patterns;
use pinpoint::query::{
    list_query, FIND_SQL, NAMES_BY_PREFIX_SQL, SCHEMA_SQL, UPSERT_SQL,
};
use pinpoint::sanitize_fts;
use rusqlite::{params_from_iter, Connection};

fn db_with(names: &[(&str, &str, &str)]) -> Connection {
    let conn = Connection::open_in_memory().unwrap();
    conn.execute_batch(SCHEMA_SQL).unwrap();
    for (i, (name, content, tags)) in names.iter().enumerate() {
        let at = format!("2024-07-19T16:51:0{}+00:00", i);
        conn.execute(UPSERT_SQL, (name, content, tags, "shell", at)).unwrap();
    }
    conn
}

fn prefix_names(conn: &Connection, prefix: &str) -> Vec<String> {
    let pats = prefix_patterns(prefix);
    let mut stmt = conn.prepare(NAMES_BY_PREFIX_SQL).unwrap();
    stmt.query_map((pats.starts_with, pats.starts_with_dash), |r| r.get(0))
        .unwrap()
        .collect::<rusqlite::Result<Vec<String>>>()
        .unwrap()
}

#[test]
fn prefix_search_matches_names_literally() {
    let conn = db_with(&[("fix-a", "a", ""), ("f_x", "b", ""), ("fax", "c", ""), ("50%off", "d", "")]);
    assert_eq!(prefix_names(&conn, "f_"), vec!["f_x".to_string()]);
    assert_eq!(prefix_names(&conn, "fi"), vec!["fix-a".to_string()]);
    assert_eq!(prefix_names(&conn, "50%"), vec!["50%off".to_string()]);
    assert_eq!(prefix_names(&conn, "5%"), Vec::<String>::new());
}

#[test]
fn saving_twice_updates_in_place() {
    let conn = db_with(&[("sql", "first", "a"), ("sql", "second", "b")]);
    let rows: Vec<(String, String)> = conn
        .prepare("SELECT content, tags FROM prompts WHERE name = 'sql'")
        .unwrap()
        .query_map([], |r| Ok((r.get(0)?, r.get(1)?)))
        .unwrap()
        .collect::<rusqlite::Result<Vec<_>>>()
        .unwrap();
    assert_eq!(rows, vec![("second".to_string(), "b".to_string())]);
}

#[test]
fn listing_filters_by_literal_tag_newest_first() {
    let conn = db_with(&[("a", "x", "sql"), ("b", "y", "s_l"), ("c", "z", "sql,pg")]);
    let q = list_query(Some("s_l"), None, 10);
    let names: Vec<String> = conn
        .prepare(&q.sql)
        .unwrap()
        .query_map(params_from_iter(q.args), |r| r.get(1))
        .unwrap()
        .collect::<rusqlite::Result<Vec<_>>>()
        .unwrap();
    assert_eq!(names, vec!["b".to_string()]);
    let q = list_query(Some("sql"), None, 10);
    let names: Vec<String> = conn
        .prepare(&q.sql)
        .unwrap()
        .query_map(params_from_iter(q.args), |r| r.get(1))
        .unwrap()
        .collect::<rusqlite::Result<Vec<_>>>()
        .unwrap();
    assert_eq!(names, vec!["c".to_string(), "a".to_string()]);
}

#[test]
fn search_with_operator_words_runs() {
    let conn = db_with(&[("auth", "fix the auth bug in auth.ts", "bug"), ("or", "this OR that", "")]);
    for query in ["auth", "OR", "\"unbalanced", "name:auth", "NEAR(a b)"] {
        let safe = sanitize_fts(query);
        let mut stmt = conn.prepare(FIND_SQL).unwrap();
        let found = stmt
            .query_map((safe, 20u32), |r| r.get::<_, String>(1))
            .unwrap()
            .collect::<rusqlite::Result<Vec<_>>>();
        assert!(found.is_ok(), "query {:?}", query);
    }
}
