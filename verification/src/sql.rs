//! The SQL text the workflow issues, as verified constants and builders.

use vstd::prelude::*;

verus! {

/// The one fixed seeding batch: create the table and insert the two rows.
pub open spec fn seed_batch_text() -> Seq<char> {
    "create table test (id integer primary key, name text);\ninsert into test (name) values ('hello');\ninsert into test (name) values ('world');\n"@
}

/// The full-table scan used both before and after the export.
pub open spec fn select_all_text() -> Seq<char> {
    "select * from test"@
}

/// The catalog query: every table name the store knows of.
pub open spec fn catalog_text() -> Seq<char> {
    "SELECT name FROM sqlite_master WHERE type='table'"@
}

/// The name of the one seeded table.
pub open spec fn seeded_table_name() -> Seq<char> {
    "test"@
}

/// What `vacuum_into` builds for a given destination path.
pub open spec fn vacuum_into_text(path: Seq<char>) -> Seq<char> {
    "vacuum into '"@ + path + "'"@
}

pub fn seed_batch_sql() -> (s: &'static str)
    ensures
        s@ == seed_batch_text(),
{
    "create table test (id integer primary key, name text);\ninsert into test (name) values ('hello');\ninsert into test (name) values ('world');\n"
}

pub fn select_all_sql() -> (s: &'static str)
    ensures
        s@ == select_all_text(),
{
    "select * from test"
}

pub fn catalog_sql() -> (s: &'static str)
    ensures
        s@ == catalog_text(),
{
    "SELECT name FROM sqlite_master WHERE type='table'"
}

/// Builds the export statement for a destination path. The path is spliced
/// in verbatim between single quotes, exactly as the workflow issues it.
pub fn vacuum_into(db_str: &str) -> (s: String)
    ensures
        s@ == vacuum_into_text(db_str@),
{
    let mut s = String::from_str("vacuum into '");
    s.append(db_str);
    s.append("'");
    s
}

} // verus!
