//! The records of builds.
use crate::db::models::{
    upsert_statement, BindView, COUNT_READY, DELETE, GET_ACTIVE, GET_BY_PR, GET_LAST_READY,
    UPDATE_STATE, UPSERT,
};
use crate::db::CREATE_TABLE;
use vstd::prelude::*;

verus! {

/// A build is put on record with its values in the order of the columns that the statement names:
/// the number of the PR, the hash and the short hash of the commit, the tag of the image, the state
/// and what belongs to the state. Only the values hang on the build, not the statement.
pub proof fn builds_are_recorded_by_column(
    pr_number: u32,
    commit_hash: Seq<char>,
    commit_hash_short: Seq<char>,
    image_tag: Seq<char>,
    state: Seq<char>,
    state_data: Option<Seq<char>>,
)
    ensures
        ({
            let s = upsert_statement(
                pr_number,
                commit_hash,
                commit_hash_short,
                image_tag,
                state,
                state_data,
            );
            &&& s.sql == UPSERT@
            &&& s.binds.len() == 6
            &&& s.binds[0] == BindView::Integer(pr_number as i64)
            &&& s.binds[1] == BindView::Text(commit_hash)
            &&& s.binds[2] == BindView::Text(commit_hash_short)
            &&& s.binds[3] == BindView::Text(image_tag)
            &&& s.binds[4] == BindView::Text(state)
            &&& s.binds[5] == BindView::OptionalText(state_data)
        }),
        "INSERT INTO pr_builds (pr_number, commit_hash, commit_hash_short, image_tag, state, state_data, updated_at) VALUES (?, ?, ?, ?, ?, ?, datetime('now')) ON CONFLICT(pr_number) DO UPDATE SET "@.is_prefix_of(
            UPSERT@,
        ),
{
    reveal_strlit(
        "INSERT INTO pr_builds (pr_number, commit_hash, commit_hash_short, image_tag, state, state_data, updated_at) VALUES (?, ?, ?, ?, ?, ?, datetime('now')) ON CONFLICT(pr_number) DO UPDATE SET ",
    );
    reveal_strlit(
        "INSERT INTO pr_builds (pr_number, commit_hash, commit_hash_short, image_tag, state, state_data, updated_at) VALUES (?, ?, ?, ?, ?, ?, datetime('now')) ON CONFLICT(pr_number) DO UPDATE SET commit_hash = excluded.commit_hash, commit_hash_short = excluded.commit_hash_short, image_tag = excluded.image_tag, state = excluded.state, state_data = excluded.state_data, updated_at = datetime('now')",
    );
    let head =
        "INSERT INTO pr_builds (pr_number, commit_hash, commit_hash_short, image_tag, state, state_data, updated_at) VALUES (?, ?, ?, ?, ?, ?, datetime('now')) ON CONFLICT(pr_number) DO UPDATE SET "@;
    assert(head =~= UPSERT@.subrange(0, head.len() as int));
}

/// What is read, counted, changed or deleted of a PR is read, counted, changed or deleted by the
/// number of that PR; only finished builds are counted for a commit, or read as the last ones.
pub proof fn statements_go_by_the_number()
    ensures
        " WHERE pr_number = ?"@.is_suffix_of(GET_BY_PR@),
        " WHERE pr_number = ?"@.is_suffix_of(DELETE@),
        " WHERE pr_number = ?"@.is_suffix_of(UPDATE_STATE@),
        COUNT_READY@ == "SELECT COUNT(*) FROM pr_builds"@ + " WHERE pr_number = ?"@
            + " AND commit_hash_short = ?"@ + " AND state = 'Ready'"@,
        GET_LAST_READY@ == "SELECT commit_hash_short FROM pr_builds"@ + " WHERE pr_number = ?"@
            + " AND state = 'Ready'"@ + " ORDER BY updated_at DESC LIMIT 1"@,
        "UPDATE pr_builds SET state = ?, state_data = ?, "@.is_prefix_of(UPDATE_STATE@),
{
    reveal_strlit(" WHERE pr_number = ?");
    reveal_strlit(" AND commit_hash_short = ?");
    reveal_strlit(" AND state = 'Ready'");
    reveal_strlit(" ORDER BY updated_at DESC LIMIT 1");
    reveal_strlit("SELECT COUNT(*) FROM pr_builds");
    reveal_strlit("SELECT commit_hash_short FROM pr_builds");
    reveal_strlit("UPDATE pr_builds SET state = ?, state_data = ?, ");
    reveal_strlit("SELECT * FROM pr_builds WHERE pr_number = ?");
    reveal_strlit("DELETE FROM pr_builds WHERE pr_number = ?");
    reveal_strlit(
        "UPDATE pr_builds SET state = ?, state_data = ?, updated_at = datetime('now') WHERE pr_number = ?",
    );
    reveal_strlit(
        "SELECT COUNT(*) FROM pr_builds WHERE pr_number = ? AND commit_hash_short = ? AND state = 'Ready'",
    );
    reveal_strlit(
        "SELECT commit_hash_short FROM pr_builds WHERE pr_number = ? AND state = 'Ready' ORDER BY updated_at DESC LIMIT 1",
    );
    let by = " WHERE pr_number = ?"@;
    assert(by =~= GET_BY_PR@.subrange(GET_BY_PR@.len() - by.len(), GET_BY_PR@.len() as int));
    assert(by =~= DELETE@.subrange(DELETE@.len() - by.len(), DELETE@.len() as int));
    assert(by =~= UPDATE_STATE@.subrange(
        UPDATE_STATE@.len() - by.len(),
        UPDATE_STATE@.len() as int,
    ));
    assert(COUNT_READY@ =~= "SELECT COUNT(*) FROM pr_builds"@ + by + " AND commit_hash_short = ?"@
        + " AND state = 'Ready'"@);
    assert(GET_LAST_READY@ =~= "SELECT commit_hash_short FROM pr_builds"@ + by
        + " AND state = 'Ready'"@ + " ORDER BY updated_at DESC LIMIT 1"@);
    let set = "UPDATE pr_builds SET state = ?, state_data = ?, "@;
    assert(set =~= UPDATE_STATE@.subrange(0, set.len() as int));
}

/// A build of a PR that has one on record takes the place of it, column by column.
pub proof fn records_are_replaced_by_column()
    ensures
        UPSERT@
            == "INSERT INTO pr_builds (pr_number, commit_hash, commit_hash_short, image_tag, state, state_data, updated_at) VALUES (?, ?, ?, ?, ?, ?, datetime('now')) ON CONFLICT(pr_number) DO UPDATE SET "@
            + "commit_hash = excluded.commit_hash, "@
            + "commit_hash_short = excluded.commit_hash_short, "@
            + "image_tag = excluded.image_tag, "@
            + "state = excluded.state, "@
            + "state_data = excluded.state_data, "@
            + "updated_at = datetime('now')"@,
{
    reveal_strlit(
        "INSERT INTO pr_builds (pr_number, commit_hash, commit_hash_short, image_tag, state, state_data, updated_at) VALUES (?, ?, ?, ?, ?, ?, datetime('now')) ON CONFLICT(pr_number) DO UPDATE SET ",
    );
    reveal_strlit(
        "INSERT INTO pr_builds (pr_number, commit_hash, commit_hash_short, image_tag, state, state_data, updated_at) VALUES (?, ?, ?, ?, ?, ?, datetime('now')) ON CONFLICT(pr_number) DO UPDATE SET commit_hash = excluded.commit_hash, commit_hash_short = excluded.commit_hash_short, image_tag = excluded.image_tag, state = excluded.state, state_data = excluded.state_data, updated_at = datetime('now')",
    );
    reveal_strlit("commit_hash = excluded.commit_hash, ");
    reveal_strlit("commit_hash_short = excluded.commit_hash_short, ");
    reveal_strlit("image_tag = excluded.image_tag, ");
    reveal_strlit("state = excluded.state, ");
    reveal_strlit("state_data = excluded.state_data, ");
    reveal_strlit("updated_at = datetime('now')");
    assert(UPSERT@
        =~= "INSERT INTO pr_builds (pr_number, commit_hash, commit_hash_short, image_tag, state, state_data, updated_at) VALUES (?, ?, ?, ?, ?, ?, datetime('now')) ON CONFLICT(pr_number) DO UPDATE SET "@
        + "commit_hash = excluded.commit_hash, "@
        + "commit_hash_short = excluded.commit_hash_short, "@
        + "image_tag = excluded.image_tag, "@
        + "state = excluded.state, "@
        + "state_data = excluded.state_data, "@
        + "updated_at = datetime('now')"@);
}

/// There is one record for a PR, with the columns that builds are recorded by and the times of its
/// first and its last change; all of them but those that failed or are shutting down are walked.
pub proof fn one_record_for_a_pr()
    ensures
        CREATE_TABLE@ == "CREATE TABLE IF NOT EXISTS pr_builds ("@
            + "id INTEGER PRIMARY KEY AUTOINCREMENT, "@
            + "pr_number INTEGER NOT NULL UNIQUE, "@
            + "commit_hash TEXT NOT NULL, "@
            + "commit_hash_short TEXT NOT NULL, "@
            + "image_tag TEXT NOT NULL, "@
            + "state TEXT NOT NULL, "@
            + "state_data TEXT, "@
            + "created_at TEXT NOT NULL DEFAULT (datetime('now')), "@
            + "updated_at TEXT NOT NULL DEFAULT (datetime('now')))"@,
        GET_ACTIVE@ == "SELECT * FROM pr_builds"@
            + " WHERE state NOT IN ('Failed', 'ShuttingDown')"@,
{
    reveal_strlit(
        "CREATE TABLE IF NOT EXISTS pr_builds (id INTEGER PRIMARY KEY AUTOINCREMENT, pr_number INTEGER NOT NULL UNIQUE, commit_hash TEXT NOT NULL, commit_hash_short TEXT NOT NULL, image_tag TEXT NOT NULL, state TEXT NOT NULL, state_data TEXT, created_at TEXT NOT NULL DEFAULT (datetime('now')), updated_at TEXT NOT NULL DEFAULT (datetime('now')))",
    );
    reveal_strlit("CREATE TABLE IF NOT EXISTS pr_builds (");
    reveal_strlit("id INTEGER PRIMARY KEY AUTOINCREMENT, ");
    reveal_strlit("pr_number INTEGER NOT NULL UNIQUE, ");
    reveal_strlit("commit_hash TEXT NOT NULL, ");
    reveal_strlit("commit_hash_short TEXT NOT NULL, ");
    reveal_strlit("image_tag TEXT NOT NULL, ");
    reveal_strlit("state TEXT NOT NULL, ");
    reveal_strlit("state_data TEXT, ");
    reveal_strlit("created_at TEXT NOT NULL DEFAULT (datetime('now')), ");
    reveal_strlit("updated_at TEXT NOT NULL DEFAULT (datetime('now')))");
    reveal_strlit("SELECT * FROM pr_builds WHERE state NOT IN ('Failed', 'ShuttingDown')");
    reveal_strlit("SELECT * FROM pr_builds");
    reveal_strlit(" WHERE state NOT IN ('Failed', 'ShuttingDown')");
    assert(CREATE_TABLE@ =~= "CREATE TABLE IF NOT EXISTS pr_builds ("@
        + "id INTEGER PRIMARY KEY AUTOINCREMENT, "@
        + "pr_number INTEGER NOT NULL UNIQUE, "@
        + "commit_hash TEXT NOT NULL, "@
        + "commit_hash_short TEXT NOT NULL, "@
        + "image_tag TEXT NOT NULL, "@
        + "state TEXT NOT NULL, "@
        + "state_data TEXT, "@
        + "created_at TEXT NOT NULL DEFAULT (datetime('now')), "@
        + "updated_at TEXT NOT NULL DEFAULT (datetime('now')))"@);
    assert(GET_ACTIVE@ =~= "SELECT * FROM pr_builds"@
        + " WHERE state NOT IN ('Failed', 'ShuttingDown')"@);
}

} // verus!
