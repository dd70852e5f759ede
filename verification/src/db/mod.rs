//! The database of builds.
pub mod models;

use vstd::prelude::*;

verus! {

/// The most connections to the database at one time.
pub const MAX_CONNECTIONS: u32 = 5;

/// Creates the table of builds.
pub const CREATE_TABLE: &'static str = "CREATE TABLE IF NOT EXISTS pr_builds (id INTEGER PRIMARY KEY AUTOINCREMENT, pr_number INTEGER NOT NULL UNIQUE, commit_hash TEXT NOT NULL, commit_hash_short TEXT NOT NULL, image_tag TEXT NOT NULL, state TEXT NOT NULL, state_data TEXT, created_at TEXT NOT NULL DEFAULT (datetime('now')), updated_at TEXT NOT NULL DEFAULT (datetime('now')))";

/// Creates the index for faster lookups.
pub const CREATE_INDEX: &'static str = "CREATE INDEX IF NOT EXISTS idx_pr_builds_pr_number ON pr_builds(pr_number)";

/// The address of the database file at `path`; the file is created where there is none.
pub fn database_url(path: &str) -> (r: String)
    ensures
        r@ == "sqlite:"@ + path@ + "?mode=rwc"@,
{
    let mut url = "sqlite:".to_owned();
    url.append(path);
    url.append("?mode=rwc");
    url
}

/// The statements that bring a database up to date, in order.
pub fn run_migrations() -> (r: Vec<&'static str>)
    ensures
        r@ == seq![CREATE_TABLE, CREATE_INDEX],
{
    let mut steps: Vec<&'static str> = Vec::new();
    steps.push(CREATE_TABLE);
    steps.push(CREATE_INDEX);
    assert(steps@ =~= seq![CREATE_TABLE, CREATE_INDEX]);
    steps
}

} // verus!
