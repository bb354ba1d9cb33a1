//! The statements of the relational backend. Each of its two tables holds
//! rows `(name, data)`, `data` being the JSON text of one progress or tally.
//! Writes select first and then insert or update; the two steps are not one
//! transaction, so two steps for the same player at once may lose an update.

use vstd::prelude::*;

verus! {

/// The table of game progress.
pub const DB_HATAGENPEI_PROGRESS_KEY: &'static str = "hatagenpei_progress";

/// The table of tallies.
pub const DB_HATAGENPEI_WINLOSES_KEY: &'static str = "hatagenpei_winloses";

/// How a row is written after the select that looked for it.
#[derive(Debug, Clone, Copy, PartialEq, Eq, Structural)]
pub enum WriteKind {
    Insert,
    Update,
}

pub open spec fn create_table_text(table: Seq<char>) -> Seq<char> {
    "CREATE TABLE IF NOT EXISTS "@ + table
        + " (name VARCHAR NOT NULL, data VARCHAR NOT NULL)"@
}

pub open spec fn select_text(table: Seq<char>) -> Seq<char> {
    "SELECT name, data FROM "@ + table + " WHERE name = $1"@
}

pub open spec fn select_all_text(table: Seq<char>) -> Seq<char> {
    "SELECT name, data FROM "@ + table
}

pub open spec fn insert_text(table: Seq<char>) -> Seq<char> {
    "INSERT INTO "@ + table + " (name, data) VALUES ($1, $2)"@
}

pub open spec fn update_text(table: Seq<char>) -> Seq<char> {
    "UPDATE "@ + table + " SET data = $1 WHERE name = $2"@
}

pub open spec fn delete_text(table: Seq<char>) -> Seq<char> {
    "DELETE FROM "@ + table + " WHERE name = $1"@
}

/// Creates `table` unless it exists.
pub fn create_table_query(table: &str) -> (r: String)
    ensures
        r@ == create_table_text(table@),
{
    String::from_str("CREATE TABLE IF NOT EXISTS ").concat(table).concat(
        " (name VARCHAR NOT NULL, data VARCHAR NOT NULL)",
    )
}

/// The rows of `table` under the name `$1`.
pub fn select_query(table: &str) -> (r: String)
    ensures
        r@ == select_text(table@),
{
    String::from_str("SELECT name, data FROM ").concat(table).concat(" WHERE name = $1")
}

/// Every row of `table`.
pub fn select_all_query(table: &str) -> (r: String)
    ensures
        r@ == select_all_text(table@),
{
    String::from_str("SELECT name, data FROM ").concat(table)
}

/// Adds the row `($1, $2)` to `table`.
pub fn insert_query(table: &str) -> (r: String)
    ensures
        r@ == insert_text(table@),
{
    String::from_str("INSERT INTO ").concat(table).concat(" (name, data) VALUES ($1, $2)")
}

/// Sets the data of the rows under the name `$2` to `$1`.
pub fn update_query(table: &str) -> (r: String)
    ensures
        r@ == update_text(table@),
{
    String::from_str("UPDATE ").concat(table).concat(" SET data = $1 WHERE name = $2")
}

/// Removes the rows under the name `$1`.
pub fn delete_query(table: &str) -> (r: String)
    ensures
        r@ == delete_text(table@),
{
    String::from_str("DELETE FROM ").concat(table).concat(" WHERE name = $1")
}

/// A row that the select found is updated; otherwise one is inserted.
pub fn write_kind(rows_found: usize) -> (r: WriteKind)
    ensures
        r == (if rows_found == 0 {
            WriteKind::Insert
        } else {
            WriteKind::Update
        }),
{
    if rows_found == 0 {
        WriteKind::Insert
    } else {
        WriteKind::Update
    }
}

} // verus!
