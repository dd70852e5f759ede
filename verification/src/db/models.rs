//! The records of builds, and the statements that read and change them.
use crate::config::{copy_optional, optional_text};
use vstd::prelude::*;

verus! {

/// Represents a PR build in the database.
#[derive(Debug)]
pub struct PrBuild {
    pub id: i64,
    pub pr_number: i64,
    pub commit_hash: String,
    pub commit_hash_short: String,
    pub image_tag: String,
    pub state: String,
    pub state_data: Option<String>,
    pub created_at: String,
    pub updated_at: String,
}

impl Clone for PrBuild {
    fn clone(&self) -> (r: Self)
        ensures
            r == *self,
    {
        PrBuild {
            id: self.id,
            pr_number: self.pr_number,
            commit_hash: self.commit_hash.clone(),
            commit_hash_short: self.commit_hash_short.clone(),
            image_tag: self.image_tag.clone(),
            state: self.state.clone(),
            state_data: copy_optional(&self.state_data),
            created_at: self.created_at.clone(),
            updated_at: self.updated_at.clone(),
        }
    }
}

/// A value in a statement.
#[derive(Debug)]
pub enum Bind {
    Integer(i64),
    Text(String),
    OptionalText(Option<String>),
}

/// The values in a [`Bind`].
pub enum BindView {
    Integer(i64),
    Text(Seq<char>),
    OptionalText(Option<Seq<char>>),
}

impl View for Bind {
    type V = BindView;

    open spec fn view(&self) -> BindView {
        match self {
            Bind::Integer(n) => BindView::Integer(*n),
            Bind::Text(s) => BindView::Text(s@),
            Bind::OptionalText(t) => BindView::OptionalText(optional_text(*t)),
        }
    }
}

/// A statement for the database: a `?` in its text stands for the next of its values.
#[derive(Debug)]
pub struct Statement {
    pub sql: &'static str,
    pub binds: Vec<Bind>,
}

/// The values in a [`Statement`].
#[verifier::ext_equal]
pub struct StatementView {
    pub sql: Seq<char>,
    pub binds: Seq<BindView>,
}

/// The values that a statement takes.
pub open spec fn binds_view(binds: Seq<Bind>) -> Seq<BindView> {
    binds.map_values(|b: Bind| b@)
}

impl View for Statement {
    type V = StatementView;

    open spec fn view(&self) -> StatementView {
        StatementView { sql: self.sql@, binds: binds_view(self.binds@) }
    }
}

/// Reads the build of a PR.
pub const GET_BY_PR: &'static str = "SELECT * FROM pr_builds WHERE pr_number = ?";

/// Counts the finished builds of a commit of a PR.
pub const COUNT_READY: &'static str = "SELECT COUNT(*) FROM pr_builds WHERE pr_number = ? AND commit_hash_short = ? AND state = 'Ready'";

/// Adds the build of a PR, or replaces it.
pub const UPSERT: &'static str = "INSERT INTO pr_builds (pr_number, commit_hash, commit_hash_short, image_tag, state, state_data, updated_at) VALUES (?, ?, ?, ?, ?, ?, datetime('now')) ON CONFLICT(pr_number) DO UPDATE SET commit_hash = excluded.commit_hash, commit_hash_short = excluded.commit_hash_short, image_tag = excluded.image_tag, state = excluded.state, state_data = excluded.state_data, updated_at = datetime('now')";

/// Changes the state of a build.
pub const UPDATE_STATE: &'static str = "UPDATE pr_builds SET state = ?, state_data = ?, updated_at = datetime('now') WHERE pr_number = ?";

/// Deletes the build of a PR.
pub const DELETE: &'static str = "DELETE FROM pr_builds WHERE pr_number = ?";

/// Reads the builds that have neither failed nor are being shut down.
pub const GET_ACTIVE: &'static str = "SELECT * FROM pr_builds WHERE state NOT IN ('Failed', 'ShuttingDown')";

/// Reads the commit of the last finished build of a PR.
pub const GET_LAST_READY: &'static str = "SELECT commit_hash_short FROM pr_builds WHERE pr_number = ? AND state = 'Ready' ORDER BY updated_at DESC LIMIT 1";

/// The statement that adds or replaces a build.
pub open spec fn upsert_statement(
    pr_number: u32,
    commit_hash: Seq<char>,
    commit_hash_short: Seq<char>,
    image_tag: Seq<char>,
    state: Seq<char>,
    state_data: Option<Seq<char>>,
) -> StatementView {
    StatementView {
        sql: UPSERT@,
        binds: seq![
            BindView::Integer(pr_number as i64),
            BindView::Text(commit_hash),
            BindView::Text(commit_hash_short),
            BindView::Text(image_tag),
            BindView::Text(state),
            BindView::OptionalText(state_data),
        ],
    }
}

fn copy_text(t: Option<&str>) -> (r: Option<String>)
    ensures
        optional_text(r) == (match t {
            Some(s) => Some(s@),
            None => None::<Seq<char>>,
        }),
{
    match t {
        Some(s) => Some(s.to_owned()),
        None => None,
    }
}

impl PrBuild {
    /// Get a PR build by PR number
    pub fn get_by_pr(pr_number: u32) -> (r: Statement)
        ensures
            r@ == (StatementView {
                sql: GET_BY_PR@,
                binds: seq![BindView::Integer(pr_number as i64)],
            }),
    {
        let mut binds: Vec<Bind> = Vec::new();
        binds.push(Bind::Integer(pr_number as i64));
        assert(binds_view(binds@) =~= seq![BindView::Integer(pr_number as i64)]);
        Statement { sql: GET_BY_PR, binds }
    }

    /// Count the finished builds for this PR with the given commit hash
    pub fn exists_with_commit(pr_number: u32, commit_hash_short: &str) -> (r: Statement)
        ensures
            r@ == (StatementView {
                sql: COUNT_READY@,
                binds: seq![
                    BindView::Integer(pr_number as i64),
                    BindView::Text(commit_hash_short@),
                ],
            }),
    {
        let mut binds: Vec<Bind> = Vec::new();
        binds.push(Bind::Integer(pr_number as i64));
        binds.push(Bind::Text(commit_hash_short.to_owned()));
        assert(binds_view(binds@) =~= seq![
            BindView::Integer(pr_number as i64),
            BindView::Text(commit_hash_short@),
        ]);
        Statement { sql: COUNT_READY, binds }
    }

    /// Whether a count of builds says that there is one.
    pub fn any_counted(count: i64) -> (r: bool)
        ensures
            r == (count > 0),
    {
        count > 0
    }

    /// Create or update a PR build
    pub fn upsert(
        pr_number: u32,
        commit_hash: &str,
        commit_hash_short: &str,
        image_tag: &str,
        state: &str,
        state_data: Option<&str>,
    ) -> (r: Statement)
        ensures
            r@ == upsert_statement(
                pr_number,
                commit_hash@,
                commit_hash_short@,
                image_tag@,
                state@,
                match state_data {
                    Some(s) => Some(s@),
                    None => None,
                },
            ),
    {
        let mut binds: Vec<Bind> = Vec::new();
        binds.push(Bind::Integer(pr_number as i64));
        binds.push(Bind::Text(commit_hash.to_owned()));
        binds.push(Bind::Text(commit_hash_short.to_owned()));
        binds.push(Bind::Text(image_tag.to_owned()));
        binds.push(Bind::Text(state.to_owned()));
        binds.push(Bind::OptionalText(copy_text(state_data)));
        assert(binds_view(binds@) =~= upsert_statement(
            pr_number,
            commit_hash@,
            commit_hash_short@,
            image_tag@,
            state@,
            match state_data {
                Some(s) => Some(s@),
                None => None,
            },
        ).binds);
        Statement { sql: UPSERT, binds }
    }

    /// Update just the state and state_data for a PR build
    pub fn update_state(pr_number: u32, state: &str, state_data: Option<&str>) -> (r: Statement)
        ensures
            r@ == (StatementView {
                sql: UPDATE_STATE@,
                binds: seq![
                    BindView::Text(state@),
                    BindView::OptionalText(
                        match state_data {
                            Some(s) => Some(s@),
                            None => None,
                        },
                    ),
                    BindView::Integer(pr_number as i64),
                ],
            }),
    {
        let mut binds: Vec<Bind> = Vec::new();
        let data = copy_text(state_data);
        let ghost words = optional_text(data);
        binds.push(Bind::Text(state.to_owned()));
        binds.push(Bind::OptionalText(data));
        binds.push(Bind::Integer(pr_number as i64));
        assert(binds_view(binds@) =~= seq![
            BindView::Text(state@),
            BindView::OptionalText(words),
            BindView::Integer(pr_number as i64),
        ]);
        Statement { sql: UPDATE_STATE, binds }
    }

    /// Delete a PR build record
    pub fn delete(pr_number: u32) -> (r: Statement)
        ensures
            r@ == (StatementView {
                sql: DELETE@,
                binds: seq![BindView::Integer(pr_number as i64)],
            }),
    {
        let mut binds: Vec<Bind> = Vec::new();
        binds.push(Bind::Integer(pr_number as i64));
        assert(binds_view(binds@) =~= seq![BindView::Integer(pr_number as i64)]);
        Statement { sql: DELETE, binds }
    }

    /// Get all active builds (not Failed or ShuttingDown)
    pub fn get_active_builds() -> (r: Statement)
        ensures
            r@ == (StatementView { sql: GET_ACTIVE@, binds: Seq::empty() }),
    {
        let binds: Vec<Bind> = Vec::new();
        assert(binds_view(binds@) =~= Seq::<BindView>::empty());
        Statement { sql: GET_ACTIVE, binds }
    }

    /// Get the last successful build for a PR (to check if we can skip rebuild)
    pub fn get_last_ready_commit(pr_number: u32) -> (r: Statement)
        ensures
            r@ == (StatementView {
                sql: GET_LAST_READY@,
                binds: seq![BindView::Integer(pr_number as i64)],
            }),
    {
        let mut binds: Vec<Bind> = Vec::new();
        binds.push(Bind::Integer(pr_number as i64));
        assert(binds_view(binds@) =~= seq![BindView::Integer(pr_number as i64)]);
        Statement { sql: GET_LAST_READY, binds }
    }
}

} // verus!
