//! The SQL the store runs, and the building of the listing query from its
//! optional filters.

use vstd::prelude::*;
use crate::like::{
    escaped_like, lemma_escaped_reads_literally, like_tokens, literal_tokens, push_escaped_like, LikeToken,
};
use crate::text::{decimal, decimal_string, views};

verus! {

/// The schema: the prompts table, its indexes, the FTS5 index over content,
/// name and tags, and the triggers that keep that index in step.
pub const SCHEMA_SQL: &'static str = "
CREATE TABLE IF NOT EXISTS prompts (
    id          INTEGER PRIMARY KEY AUTOINCREMENT,
    name        TEXT NOT NULL UNIQUE,
    content     TEXT NOT NULL,
    tags        TEXT,
    source      TEXT,
    created_at  TEXT NOT NULL
);
CREATE INDEX IF NOT EXISTS idx_prompts_created ON prompts(created_at);
CREATE INDEX IF NOT EXISTS idx_prompts_tags ON prompts(tags);
CREATE VIRTUAL TABLE IF NOT EXISTS prompts_fts USING fts5(
    content, name, tags,
    content='prompts', content_rowid='id',
    tokenize='porter unicode61'
);
CREATE TRIGGER IF NOT EXISTS prompts_ai AFTER INSERT ON prompts BEGIN
    INSERT INTO prompts_fts(rowid, content, name, tags)
    VALUES (new.id, new.content, new.name, new.tags);
END;
CREATE TRIGGER IF NOT EXISTS prompts_ad AFTER DELETE ON prompts BEGIN
    INSERT INTO prompts_fts(prompts_fts, rowid, content, name, tags)
    VALUES ('delete', old.id, old.content, old.name, old.tags);
END;
CREATE TRIGGER IF NOT EXISTS prompts_au AFTER UPDATE ON prompts BEGIN
    INSERT INTO prompts_fts(prompts_fts, rowid, content, name, tags)
    VALUES ('delete', old.id, old.content, old.name, old.tags);
    INSERT INTO prompts_fts(rowid, content, name, tags)
    VALUES (new.id, new.content, new.name, new.tags);
END;
";

/// Saves a prompt; a prompt already saved under the same name is updated in
/// place. Parameters: name, content, tags, source, created_at.
pub const UPSERT_SQL: &'static str = "INSERT INTO prompts(name, content, tags, source, created_at) VALUES (?, ?, ?, ?, ?)
 ON CONFLICT(name) DO UPDATE SET content=excluded.content, tags=excluded.tags, source=excluded.source, created_at=excluded.created_at";

/// Whether a name is taken. Parameter: the name.
pub const NAME_TAKEN_SQL: &'static str = "SELECT 1 FROM prompts WHERE name = ?";

/// The prompt with exactly the given name. Parameter: the name.
pub const SELECT_BY_NAME_SQL: &'static str = "SELECT id, name, content, tags, source, created_at FROM prompts WHERE name = ?";

/// At most ten prompts whose names match either prefix pattern, by name.
pub const SELECT_BY_PREFIX_SQL: &'static str = "SELECT id, name, content, tags, source, created_at FROM prompts WHERE name LIKE ? ESCAPE '\\' OR name LIKE ? ESCAPE '\\' ORDER BY name LIMIT 10";

/// Removes the prompt with exactly the given name. Parameter: the name.
pub const DELETE_BY_NAME_SQL: &'static str = "DELETE FROM prompts WHERE name = ?";

/// The names matching either prefix pattern, by name.
pub const NAMES_BY_PREFIX_SQL: &'static str = "SELECT name FROM prompts WHERE name LIKE ? ESCAPE '\\' OR name LIKE ? ESCAPE '\\' ORDER BY name";

/// Full-text search, best match first. Parameters: the FTS5 query (see
/// `sanitize_fts`) and the limit.
pub const FIND_SQL: &'static str = "SELECT p.id, p.name, p.content, p.tags, p.source, p.created_at
 FROM prompts_fts JOIN prompts p ON p.id = prompts_fts.rowid
 WHERE prompts_fts MATCH ?
 ORDER BY rank LIMIT ?";

/// The start of the listing query.
pub const LIST_SELECT_SQL: &'static str = "SELECT id, name, content, tags, source, created_at FROM prompts WHERE 1=1";

/// The clause that keeps prompts whose tags match a pattern.
pub const TAG_FILTER_SQL: &'static str = " AND tags LIKE ? ESCAPE '\\'";

/// The clause that keeps prompts whose source matches a pattern.
pub const SOURCE_FILTER_SQL: &'static str = " AND source LIKE ? ESCAPE '\\'";

/// The end of the listing query: newest first, up to a limit.
pub const LIST_ORDER_SQL: &'static str = " ORDER BY created_at DESC LIMIT ?";

/// A query text with the values for its `?` parameters, in order.
#[derive(Debug, Clone, PartialEq, Eq)]
pub struct ListQuery {
    pub sql: String,
    pub args: Vec<String>,
}

/// The `LIKE` pattern for text that contains `s`.
pub open spec fn contains_pattern(s: Seq<char>) -> Seq<char> {
    seq!['%'] + escaped_like(s) + seq!['%']
}

/// The containment pattern asks for any run, the characters of `s` one by
/// one, and any run: no character of `s` acts as a wildcard. (SQLite's
/// `LIKE` still matches ASCII letters in either case, so `--tag SQL` lists
/// prompts tagged `sql`.)
pub proof fn lemma_contains_pattern_literal(s: Seq<char>)
    ensures
        like_tokens(contains_pattern(s)) == seq![LikeToken::AnyRun] + literal_tokens(s) + seq![
            LikeToken::AnyRun,
        ],
{
    lemma_escaped_reads_literally(s, seq!['%']);
    let p = contains_pattern(s);
    assert(p =~= seq!['%'] + (escaped_like(s) + seq!['%']));
    assert(p.skip(1) =~= escaped_like(s) + seq!['%']);
    assert(seq!['%'].skip(1) =~= Seq::<char>::empty());
    assert(like_tokens(seq!['%']) == seq![LikeToken::AnyRun] + like_tokens(Seq::<char>::empty()));
    assert(like_tokens(p) == seq![LikeToken::AnyRun] + like_tokens(p.skip(1)));
    assert(seq![LikeToken::AnyRun] + (literal_tokens(s) + seq![LikeToken::AnyRun]) =~= seq![
        LikeToken::AnyRun,
    ] + literal_tokens(s) + seq![LikeToken::AnyRun]);
}

/// The text of the listing query for the filters given.
pub open spec fn list_sql(by_tag: bool, by_source: bool) -> Seq<char> {
    LIST_SELECT_SQL@ + (if by_tag { TAG_FILTER_SQL@ } else { Seq::empty() }) + (if by_source {
        SOURCE_FILTER_SQL@
    } else {
        Seq::empty()
    }) + LIST_ORDER_SQL@
}

/// The parameters of the listing query: the tag pattern, the source
/// pattern (each only when given), and the limit in decimal.
pub open spec fn list_args(tag: Option<Seq<char>>, source: Option<Seq<char>>, limit: nat) -> Seq<
    Seq<char>,
> {
    (match tag {
        Some(t) => seq![contains_pattern(t)],
        None => Seq::empty(),
    }) + (match source {
        Some(s) => seq![contains_pattern(s)],
        None => Seq::empty(),
    }) + seq![decimal(limit)]
}

/// The `LIKE` pattern for text that contains `s`.
pub fn contains_like(s: &str) -> (p: String)
    ensures
        p@ == contains_pattern(s@),
{
    let mut p = String::new();
    p.push('%');
    push_escaped_like(&mut p, s);
    p.push('%');
    p
}

/// The listing query: all prompts, or those whose tags contain
/// `tag_filter` and whose source contains `source_filter`, newest first, at
/// most `limit` of them.
pub fn list_query(tag_filter: Option<&str>, source_filter: Option<&str>, limit: u32) -> (q: ListQuery)
    ensures
        q.sql@ == list_sql(tag_filter is Some, source_filter is Some),
        views(q.args@) == list_args(
            match tag_filter {
                Some(t) => Some(t@),
                None => None,
            },
            match source_filter {
                Some(s) => Some(s@),
                None => None,
            },
            limit as nat,
        ),
{
    let mut sql = String::from_str(LIST_SELECT_SQL);
    let mut args: Vec<String> = Vec::new();
    let ghost tag_args: Seq<Seq<char>> = Seq::empty();
    if let Some(t) = tag_filter {
        sql.append(TAG_FILTER_SQL);
        args.push(contains_like(t));
        proof {
            tag_args = seq![contains_pattern(t@)];
        }
    }
    assert(views(args@) == tag_args);
    assert(sql@ == LIST_SELECT_SQL@ + (if tag_filter is Some { TAG_FILTER_SQL@ } else { Seq::empty() }));
    let ghost before = args@;
    if let Some(s) = source_filter {
        sql.append(SOURCE_FILTER_SQL);
        args.push(contains_like(s));
        assert(views(args@) == views(before).push(contains_pattern(s@)));
    }
    let ghost before2 = args@;
    sql.append(LIST_ORDER_SQL);
    args.push(decimal_string(limit as u64));
    assert(views(args@) == views(before2).push(decimal(limit as nat)));
    ListQuery { sql, args }
}


/// Each filter adds its own clause and nothing else: the tag filter tests
/// the `tags` column, the source filter the `source` column, in that order,
/// between the start of the query and its order and limit.
pub proof fn lemma_list_sql_clauses(by_tag: bool, by_source: bool)
    ensures
        !by_tag && !by_source ==> list_sql(by_tag, by_source) == LIST_SELECT_SQL@ + LIST_ORDER_SQL@,
        by_tag && !by_source ==> list_sql(by_tag, by_source) == LIST_SELECT_SQL@ + TAG_FILTER_SQL@
            + LIST_ORDER_SQL@,
        !by_tag && by_source ==> list_sql(by_tag, by_source) == LIST_SELECT_SQL@ + SOURCE_FILTER_SQL@
            + LIST_ORDER_SQL@,
        by_tag && by_source ==> list_sql(by_tag, by_source) == LIST_SELECT_SQL@ + TAG_FILTER_SQL@
            + SOURCE_FILTER_SQL@ + LIST_ORDER_SQL@,
        by_source ==> list_sql(by_tag, by_source).subrange(
            (LIST_SELECT_SQL@.len() + (if by_tag { TAG_FILTER_SQL@.len() } else { 0 })) as int,
            (LIST_SELECT_SQL@.len() + (if by_tag { TAG_FILTER_SQL@.len() } else { 0 })
                + SOURCE_FILTER_SQL@.len()) as int,
        ) == SOURCE_FILTER_SQL@,
        by_tag ==> list_sql(by_tag, by_source).subrange(
            LIST_SELECT_SQL@.len() as int,
            (LIST_SELECT_SQL@.len() + TAG_FILTER_SQL@.len()) as int,
        ) == TAG_FILTER_SQL@,
{
    let sel = LIST_SELECT_SQL@;
    let t: Seq<char> = if by_tag { TAG_FILTER_SQL@ } else { Seq::empty() };
    let src: Seq<char> = if by_source { SOURCE_FILTER_SQL@ } else { Seq::empty() };
    let ord = LIST_ORDER_SQL@;
    let q = sel + t + src + ord;
    assert(list_sql(by_tag, by_source) == q);
    assert(sel + Seq::<char>::empty() =~= sel);
    assert(sel + t + Seq::<char>::empty() =~= sel + t);
    if by_source {
        assert(q.subrange((sel.len() + t.len()) as int, (sel.len() + t.len() + src.len()) as int) =~= src);
    }
    if by_tag {
        assert(q.subrange(sel.len() as int, (sel.len() + t.len()) as int) =~= t);
    }
}

/// How many `?` parameter marks `s` holds.
pub open spec fn placeholder_count(s: Seq<char>) -> nat
    decreases s.len(),
{
    if s.len() == 0 {
        0
    } else {
        placeholder_count(s.drop_last()) + if s.last() == '?' { 1nat } else { 0nat }
    }
}

proof fn lemma_placeholder_count_concat(a: Seq<char>, b: Seq<char>)
    ensures
        placeholder_count(a + b) == placeholder_count(a) + placeholder_count(b),
    decreases b.len(),
{
    if b.len() == 0 {
        assert(a + b == a);
    } else {
        assert((a + b).drop_last() == a + b.drop_last());
        lemma_placeholder_count_concat(a, b.drop_last());
    }
}

proof fn lemma_no_marks(s: Seq<char>)
    requires
        forall|i: int| 0 <= i < s.len() ==> s[i] != '?',
    ensures
        placeholder_count(s) == 0,
    decreases s.len(),
{
    if s.len() > 0 {
        lemma_no_marks(s.drop_last());
    }
}

proof fn lemma_one_mark_at_end(s: Seq<char>)
    requires
        s.len() > 0,
        s.last() == '?',
        forall|i: int| 0 <= i < s.len() - 1 ==> s[i] != '?',
    ensures
        placeholder_count(s) == 1,
{
    lemma_no_marks(s.drop_last());
}

proof fn lemma_one_mark_at(s: Seq<char>, k: int)
    requires
        0 <= k < s.len(),
        s[k] == '?',
        forall|i: int| 0 <= i < s.len() && i != k ==> s[i] != '?',
    ensures
        placeholder_count(s) == 1,
{
    let head = s.take(k + 1);
    let tail = s.skip(k + 1);
    assert(s == head + tail);
    lemma_placeholder_count_concat(head, tail);
    lemma_one_mark_at_end(head);
    lemma_no_marks(tail);
}

proof fn lemma_select_count()
    ensures
        placeholder_count(LIST_SELECT_SQL@) == 0,
{
    reveal_strlit("SELECT id, name, content, tags, source, created_at FROM prompts WHERE 1=1");
    lemma_no_marks(LIST_SELECT_SQL@);
}

proof fn lemma_clause_counts()
    ensures
        placeholder_count(TAG_FILTER_SQL@) == 1,
        placeholder_count(SOURCE_FILTER_SQL@) == 1,
        placeholder_count(LIST_ORDER_SQL@) == 1,
{
    reveal_strlit(" AND tags LIKE ? ESCAPE '\\'");
    reveal_strlit(" AND source LIKE ? ESCAPE '\\'");
    reveal_strlit(" ORDER BY created_at DESC LIMIT ?");
    lemma_one_mark_at(TAG_FILTER_SQL@, 15);
    lemma_one_mark_at(SOURCE_FILTER_SQL@, 17);
    lemma_one_mark_at_end(LIST_ORDER_SQL@);
}

/// The listing query has exactly as many `?` marks as it has parameters,
/// whichever filters are given.
pub proof fn lemma_list_query_arity(tag: Option<Seq<char>>, source: Option<Seq<char>>, limit: nat)
    ensures
        placeholder_count(list_sql(tag is Some, source is Some)) == list_args(tag, source, limit).len(),
{
    lemma_select_count();
    lemma_clause_counts();
    let t: Seq<char> = if tag is Some { TAG_FILTER_SQL@ } else { Seq::empty() };
    let s: Seq<char> = if source is Some { SOURCE_FILTER_SQL@ } else { Seq::empty() };
    lemma_placeholder_count_concat(LIST_SELECT_SQL@, t);
    lemma_placeholder_count_concat(LIST_SELECT_SQL@ + t, s);
    lemma_placeholder_count_concat(LIST_SELECT_SQL@ + t + s, LIST_ORDER_SQL@);
}

} // verus!
