//! The rows of the listing and search tables, one per prompt.

use vstd::prelude::*;
use crate::preview::{preview, preview_of};
use crate::prompt::Prompt;
use crate::text::views;
use tabled::builder::Builder;

verus! {

/// How many characters a listing row shows of a prompt.
pub const LIST_PREVIEW_CHARS: usize = 80;

/// How many characters a search row shows of a prompt.
pub const FIND_PREVIEW_CHARS: usize = 100;

/// A row of the listing table.
#[derive(Debug, Clone, PartialEq, Eq)]
pub struct ListRow {
    pub when: String,
    pub name: String,
    pub tags: String,
    pub source: String,
    pub preview: String,
}

/// A row of the search-results table.
#[derive(Debug, Clone, PartialEq, Eq)]
pub struct FindRow {
    pub name: String,
    pub tags: String,
    pub preview: String,
}

/// `s`, or `-` in place of an empty field.
pub open spec fn shown_field(s: Seq<char>) -> Seq<char> {
    if s.len() == 0 {
        seq!['-']
    } else {
        s
    }
}

/// The text a table shows for the field `s`.
pub fn field_or_dash(s: &str) -> (out: String)
    ensures
        out@ == shown_field(s@),
{
    if s.is_empty() {
        let mut out = String::new();
        out.push('-');
        out
    } else {
        String::from_str(s)
    }
}

/// The listing row of `p`, whose save time is shown as `when`.
pub fn list_row(p: &Prompt, when: String) -> (row: ListRow)
    ensures
        row.when@ == when@,
        row.name@ == p.name@,
        row.tags@ == shown_field(p.tags@),
        row.source@ == shown_field(p.source@),
        row.preview@ == preview_of(p.content@, LIST_PREVIEW_CHARS as nat),
{
    ListRow {
        when,
        name: p.name.clone(),
        tags: field_or_dash(p.tags.as_str()),
        source: field_or_dash(p.source.as_str()),
        preview: preview(p.content.as_str(), LIST_PREVIEW_CHARS),
    }
}

/// The search row of `p`.
pub fn find_row(p: &Prompt) -> (row: FindRow)
    ensures
        row.name@ == p.name@,
        row.tags@ == shown_field(p.tags@),
        row.preview@ == preview_of(p.content@, FIND_PREVIEW_CHARS as nat),
{
    FindRow {
        name: p.name.clone(),
        tags: field_or_dash(p.tags.as_str()),
        preview: preview(p.content.as_str(), FIND_PREVIEW_CHARS),
    }
}


/// The text of the table that tabled draws for `grid`, its first row
/// included as an ordinary row, in tabled's default style.
pub uninterp spec fn table_text(grid: Seq<Seq<Seq<char>>>) -> Seq<char>;

/// The character views of a grid of strings.
pub open spec fn grid_view(records: Seq<Vec<String>>) -> Seq<Seq<Seq<char>>> {
    records.map_values(|r: Vec<String>| views(r@))
}

/// Draws the table of `records`, row by row, from tabled's
/// `Builder::from(..).build()` and its `Display`. The drawing takes pages to
/// state and depends on the records alone, so it is left to the name
/// `table_text`.
#[verifier::external_body]
fn render_table(records: Vec<Vec<String>>) -> (s: String)
    ensures
        s@ == table_text(grid_view(records@)),
{
    Builder::from(records).build().to_string()
}

/// The header row of the listing table.
pub open spec fn list_header() -> Seq<Seq<char>> {
    seq!["saved"@, "name"@, "tags"@, "source"@, "preview"@]
}

/// The cells of a listing row.
pub open spec fn list_record(r: ListRow) -> Seq<Seq<char>> {
    seq![r.when@, r.name@, r.tags@, r.source@, r.preview@]
}

/// The grid of the listing table: the header, then one row per entry.
pub open spec fn list_grid(rows: Seq<ListRow>) -> Seq<Seq<Seq<char>>> {
    seq![list_header()] + rows.map_values(|r: ListRow| list_record(r))
}

/// The header row of the search table.
pub open spec fn find_header() -> Seq<Seq<char>> {
    seq!["name"@, "tags"@, "match"@]
}

/// The cells of a search row.
pub open spec fn find_record(r: FindRow) -> Seq<Seq<char>> {
    seq![r.name@, r.tags@, r.preview@]
}

/// The grid of the search table: the header, then one row per entry.
pub open spec fn find_grid(rows: Seq<FindRow>) -> Seq<Seq<Seq<char>>> {
    seq![find_header()] + rows.map_values(|r: FindRow| find_record(r))
}

/// The search table has the header `name`, `tags`, `match`, then exactly
/// one row per result, in the order given, holding that result's name, tags
/// and preview: no result is dropped, repeated or moved.
pub proof fn lemma_find_grid_rows(rows: Seq<FindRow>)
    ensures
        find_grid(rows).len() == rows.len() + 1,
        find_grid(rows)[0] == seq!["name"@, "tags"@, "match"@],
        forall|i: int|
            0 <= i < rows.len() ==> find_grid(rows)[i + 1] == seq![
                #[trigger] rows[i].name@,
                rows[i].tags@,
                rows[i].preview@,
            ],
{
    assert forall|i: int| 0 <= i < rows.len() implies find_grid(rows)[i + 1] == seq![
        #[trigger] rows[i].name@,
        rows[i].tags@,
        rows[i].preview@,
    ] by {
        assert(find_grid(rows)[i + 1] == rows.map_values(|r: FindRow| find_record(r))[i]);
    }
}

/// The listing table has the header `saved`, `name`, `tags`, `source`,
/// `preview`, then exactly one row per prompt, in the order given, holding
/// its fields.
pub proof fn lemma_list_grid_rows(rows: Seq<ListRow>)
    ensures
        list_grid(rows).len() == rows.len() + 1,
        list_grid(rows)[0] == seq!["saved"@, "name"@, "tags"@, "source"@, "preview"@],
        forall|i: int|
            0 <= i < rows.len() ==> list_grid(rows)[i + 1] == seq![
                #[trigger] rows[i].when@,
                rows[i].name@,
                rows[i].tags@,
                rows[i].source@,
                rows[i].preview@,
            ],
{
    assert forall|i: int| 0 <= i < rows.len() implies list_grid(rows)[i + 1] == seq![
        #[trigger] rows[i].when@,
        rows[i].name@,
        rows[i].tags@,
        rows[i].source@,
        rows[i].preview@,
    ] by {
        assert(list_grid(rows)[i + 1] == rows.map_values(|r: ListRow| list_record(r))[i]);
    }
}

fn cells(texts: Vec<&str>) -> (row: Vec<String>)
    ensures
        views(row@) == texts@.map_values(|t: &str| t@),
{
    let mut row: Vec<String> = Vec::new();
    for i in 0..texts.len()
        invariant
            views(row@) == texts@.take(i as int).map_values(|t: &str| t@),
    {
        let ghost before = row@;
        row.push(String::from_str(texts[i]));
        assert(views(row@) == views(before).push(texts@[i as int]@));
        assert(texts@.take(i + 1).map_values(|t: &str| t@) == texts@.take(i as int).map_values(
            |t: &str| t@,
        ).push(texts@[i as int]@));
    }
    assert(texts@.take(texts@.len() as int) == texts@);
    row
}

/// The listing table of `rows`, under the header `saved`, `name`, `tags`,
/// `source`, `preview`.
pub fn list_table(rows: &Vec<ListRow>) -> (s: String)
    ensures
        s@ == table_text(list_grid(rows@)),
{
    let mut records: Vec<Vec<String>> = Vec::new();
    let header = cells(vec!["saved", "name", "tags", "source", "preview"]);
    proof {
        assert(views(header@) =~= list_header());
    }
    records.push(header);
    for i in 0..rows.len()
        invariant
            grid_view(records@) == list_grid(rows@.take(i as int)),
    {
        let r = &rows[i];
        let mut record: Vec<String> = Vec::new();
        record.push(r.when.clone());
        record.push(r.name.clone());
        record.push(r.tags.clone());
        record.push(r.source.clone());
        record.push(r.preview.clone());
        let ghost before = records@;
        proof {
            assert(views(record@) =~= list_record(rows@[i as int]));
        }
        records.push(record);
        proof {
            assert(grid_view(records@) =~= grid_view(before).push(list_record(rows@[i as int])));
            assert(rows@.take(i + 1).map_values(|r: ListRow| list_record(r)) =~= rows@.take(
                i as int,
            ).map_values(|r: ListRow| list_record(r)).push(list_record(rows@[i as int])));
            assert(list_grid(rows@.take(i + 1)) =~= list_grid(rows@.take(i as int)).push(
                list_record(rows@[i as int]),
            ));
        }
    }
    proof {
        assert(rows@.take(rows@.len() as int) == rows@);
    }
    render_table(records)
}

/// The search table of `rows`, under the header `name`, `tags`, `match`.
pub fn find_table(rows: &Vec<FindRow>) -> (s: String)
    ensures
        s@ == table_text(find_grid(rows@)),
{
    let mut records: Vec<Vec<String>> = Vec::new();
    let header = cells(vec!["name", "tags", "match"]);
    proof {
        assert(views(header@) =~= find_header());
    }
    records.push(header);
    for i in 0..rows.len()
        invariant
            grid_view(records@) == find_grid(rows@.take(i as int)),
    {
        let r = &rows[i];
        let mut record: Vec<String> = Vec::new();
        record.push(r.name.clone());
        record.push(r.tags.clone());
        record.push(r.preview.clone());
        let ghost before = records@;
        proof {
            assert(views(record@) =~= find_record(rows@[i as int]));
        }
        records.push(record);
        proof {
            assert(grid_view(records@) =~= grid_view(before).push(find_record(rows@[i as int])));
            assert(rows@.take(i + 1).map_values(|r: FindRow| find_record(r)) =~= rows@.take(
                i as int,
            ).map_values(|r: FindRow| find_record(r)).push(find_record(rows@[i as int])));
            assert(find_grid(rows@.take(i + 1)) =~= find_grid(rows@.take(i as int)).push(
                find_record(rows@[i as int]),
            ));
        }
    }
    proof {
        assert(rows@.take(rows@.len() as int) == rows@);
    }
    render_table(records)
}

} // verus!
