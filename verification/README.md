# pinpoint

A small library behind a command-line store of AI prompts: saving, listing,
full-text search, replay by name or unique prefix, and removal. Its logic
carries contracts and proofs that check them; the command line, the SQLite
calls, the terminal and the clipboard live in `app/`.

Layout of `src/`:

- `text.rs` — character-level helpers stated over `Seq<char>`: prefixes,
  joining, decimal numerals, Unicode whitespace trimming and splitting.
- `std_text.rs` — contracts for the standard-library text functions used.
- `preview.rs`, `rows.rs` — one-line previews, the table rows, and the
  tables drawn from them.
- `fts.rs` — quoting of search input for FTS5, with the proofs that the
  result is read as closed quoted strings only.
- `naming.rs` — names for prompts saved without one, and the step-by-step
  search for a free variant (`-2`, `-3`, ...).
- `lookup.rs`, `error.rs` — exact-then-prefix lookup and removal decisions,
  and the errors they report.
- `query.rs`, `like.rs` — the SQL text, the listing query builder, and
  `LIKE` patterns in which no character of user text acts as a wildcard
  (SQLite still compares ASCII letters without regard to case).
- `time.rs` — the current UTC time as numbers, its compact and RFC 3339
  forms, and the short local form of save times in listings.
- `prompt.rs`, `shell.rs`, `paths.rs`, `input.rs` — prompt records, shell
  helpers and clipboard programs, the data directory, command-line input.
