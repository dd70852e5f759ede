//! One PR instance and the states it passes through.
use crate::config::{copy_optional, optional_text};
use crate::text::{decimal, decimal_is_read_back, is_digit, numbered};
use vstd::prelude::*;

verus! {

/// Nanoseconds in a second.
pub const NANOS_PER_SECOND: u128 = 1_000_000_000;

/// A point in time: nanoseconds on a clock that never goes back.
#[derive(Debug, Clone, Copy, PartialEq, Eq, Structural)]
pub struct Moment {
    pub nanos: u128,
}

/// The nanoseconds from `earlier` to `later`, and none where `later` comes first.
pub open spec fn nanos_between(earlier: Moment, later: Moment) -> int {
    if later.nanos >= earlier.nanos {
        later.nanos - earlier.nanos
    } else {
        0
    }
}

impl Moment {
    /// Whether more than `seconds` have passed from this moment to `now`.
    pub fn older_than(&self, now: Moment, seconds: u64) -> (r: bool)
        ensures
            r == (nanos_between(*self, now) > seconds * NANOS_PER_SECOND),
    {
        let passed: u128 = if now.nanos >= self.nanos { now.nanos - self.nanos } else { 0 };
        passed > (seconds as u128) * NANOS_PER_SECOND
    }

    /// The moment `minutes` later.
    pub fn plus_minutes(&self, minutes: u64) -> (r: Moment)
        requires
            minutes * 60 <= u64::MAX,
            self.nanos + minutes * 60 * NANOS_PER_SECOND <= u128::MAX,
        ensures
            r.nanos == self.nanos + minutes * 60 * NANOS_PER_SECOND,
    {
        Moment { nanos: self.nanos + ((minutes * 60) as u128) * NANOS_PER_SECOND }
    }
}

/// State of a PR instance in its lifecycle.
#[derive(Debug)]
pub enum InstanceState {
    /// Jenkins build triggered, waiting for completion
    Building { started_at: Moment, build_url: Option<String> },
    /// Build complete, creating k8s deployment
    Deploying { image_tag: String },
    /// Deployment created, waiting for pod to be ready
    Starting { deployment_name: String, address: String, port: u16, started_at: Moment },
    /// Pod ready, server accepting connections
    Ready {
        deployment_name: String,
        address: String,
        port: u16,
        ready_at: Moment,
        shutdown_at: Moment,
    },
    /// Shutdown timer expired, deleting deployment
    ShuttingDown { deployment_name: String },
    /// Build or deployment failed
    Failed { reason: String },
}

/// The values in an [`InstanceState`].
pub enum InstanceStateView {
    Building { started_at: Moment, build_url: Option<Seq<char>> },
    Deploying { image_tag: Seq<char> },
    Starting { deployment_name: Seq<char>, address: Seq<char>, port: u16, started_at: Moment },
    Ready {
        deployment_name: Seq<char>,
        address: Seq<char>,
        port: u16,
        ready_at: Moment,
        shutdown_at: Moment,
    },
    ShuttingDown { deployment_name: Seq<char> },
    Failed { reason: Seq<char> },
}

impl View for InstanceState {
    type V = InstanceStateView;

    open spec fn view(&self) -> InstanceStateView {
        match self {
            InstanceState::Building { started_at, build_url } => InstanceStateView::Building {
                started_at: *started_at,
                build_url: optional_text(*build_url),
            },
            InstanceState::Deploying { image_tag } => InstanceStateView::Deploying {
                image_tag: image_tag@,
            },
            InstanceState::Starting { deployment_name, address, port, started_at } =>
                InstanceStateView::Starting {
                deployment_name: deployment_name@,
                address: address@,
                port: *port,
                started_at: *started_at,
            },
            InstanceState::Ready { deployment_name, address, port, ready_at, shutdown_at } =>
                InstanceStateView::Ready {
                deployment_name: deployment_name@,
                address: address@,
                port: *port,
                ready_at: *ready_at,
                shutdown_at: *shutdown_at,
            },
            InstanceState::ShuttingDown { deployment_name } => InstanceStateView::ShuttingDown {
                deployment_name: deployment_name@,
            },
            InstanceState::Failed { reason } => InstanceStateView::Failed { reason: reason@ },
        }
    }
}

impl Clone for InstanceState {
    fn clone(&self) -> (r: Self)
        ensures
            r == *self,
    {
        match self {
            InstanceState::Building { started_at, build_url } => InstanceState::Building {
                started_at: *started_at,
                build_url: copy_optional(build_url),
            },
            InstanceState::Deploying { image_tag } => InstanceState::Deploying {
                image_tag: image_tag.clone(),
            },
            InstanceState::Starting { deployment_name, address, port, started_at } =>
                InstanceState::Starting {
                deployment_name: deployment_name.clone(),
                address: address.clone(),
                port: *port,
                started_at: *started_at,
            },
            InstanceState::Ready { deployment_name, address, port, ready_at, shutdown_at } =>
                InstanceState::Ready {
                deployment_name: deployment_name.clone(),
                address: address.clone(),
                port: *port,
                ready_at: *ready_at,
                shutdown_at: *shutdown_at,
            },
            InstanceState::ShuttingDown { deployment_name } => InstanceState::ShuttingDown {
                deployment_name: deployment_name.clone(),
            },
            InstanceState::Failed { reason } => InstanceState::Failed { reason: reason.clone() },
        }
    }
}

/// The word for a state.
pub open spec fn status_word(state: InstanceStateView) -> Seq<char> {
    match state {
        InstanceStateView::Building { .. } => "building"@,
        InstanceStateView::Deploying { .. } => "deploying"@,
        InstanceStateView::Starting { .. } => "starting"@,
        InstanceStateView::Ready { .. } => "ready"@,
        InstanceStateView::ShuttingDown { .. } => "shutting down"@,
        InstanceStateView::Failed { .. } => "failed"@,
    }
}

impl InstanceState {
    /// Get a human-readable status text
    pub fn status_text(&self) -> (r: &'static str)
        ensures
            r@ == status_word(self@),
    {
        match self {
            InstanceState::Building { .. } => "building",
            InstanceState::Deploying { .. } => "deploying",
            InstanceState::Starting { .. } => "starting",
            InstanceState::Ready { .. } => "ready",
            InstanceState::ShuttingDown { .. } => "shutting down",
            InstanceState::Failed { .. } => "failed",
        }
    }
}

/// A PR instance being managed by the proxy.
#[derive(Debug)]
pub struct PrInstance {
    pub pr_number: u32,
    pub commit_hash: String,
    pub commit_hash_short: String,
    pub state: InstanceState,
}

/// The values in a [`PrInstance`].
#[verifier::ext_equal]
pub struct PrInstanceView {
    pub pr_number: u32,
    pub commit_hash: Seq<char>,
    pub commit_hash_short: Seq<char>,
    pub state: InstanceStateView,
}

impl View for PrInstance {
    type V = PrInstanceView;

    open spec fn view(&self) -> PrInstanceView {
        PrInstanceView {
            pr_number: self.pr_number,
            commit_hash: self.commit_hash@,
            commit_hash_short: self.commit_hash_short@,
            state: self.state@,
        }
    }
}

impl Clone for PrInstance {
    fn clone(&self) -> (r: Self)
        ensures
            r == *self,
    {
        PrInstance {
            pr_number: self.pr_number,
            commit_hash: self.commit_hash.clone(),
            commit_hash_short: self.commit_hash_short.clone(),
            state: self.state.clone(),
        }
    }
}

/// The tag of the image that is built for a commit of a PR.
pub open spec fn build_tag(pr_number: u32, commit_hash_short: Seq<char>) -> Seq<char> {
    "pr-"@ + decimal(pr_number as nat) + "-"@ + commit_hash_short
}

/// The name of the deployment, and of the service, of a PR.
pub open spec fn resource_name(pr_number: u32) -> Seq<char> {
    "steel-pr-"@ + decimal(pr_number as nat)
}

/// The name of the backend under which players reach a PR.
pub open spec fn backend_name(pr_number: u32) -> Seq<char> {
    "pr-"@ + decimal(pr_number as nat)
}

/// The tag of the image that is built for a commit of a PR.
pub fn build_tag_of(pr_number: u32, commit_hash_short: &str) -> (r: String)
    ensures
        r@ == build_tag(pr_number, commit_hash_short@),
{
    let mut s = numbered("pr-", pr_number);
    s.append("-");
    s.append(commit_hash_short);
    s
}

/// The name of the deployment, and of the service, of a PR.
pub fn resource_name_of(pr_number: u32) -> (r: String)
    ensures
        r@ == resource_name(pr_number),
{
    numbered("steel-pr-", pr_number)
}

/// The name of the backend under which players reach a PR.
pub fn backend_name_of(pr_number: u32) -> (r: String)
    ensures
        r@ == backend_name(pr_number),
{
    numbered("pr-", pr_number)
}

impl PrInstance {
    /// Create a new instance in Building state with commit info
    pub fn new_building(
        pr_number: u32,
        commit_hash: String,
        commit_hash_short: String,
        queue_url: String,
        now: Moment,
    ) -> (r: Self)
        ensures
            r@ == (PrInstanceView {
                pr_number,
                commit_hash: commit_hash@,
                commit_hash_short: commit_hash_short@,
                state: InstanceStateView::Building { started_at: now, build_url: Some(queue_url@) },
            }),
    {
        PrInstance {
            pr_number,
            commit_hash,
            commit_hash_short,
            state: InstanceState::Building { started_at: now, build_url: Some(queue_url) },
        }
    }

    /// Create a new instance in Deploying state (skipping build because image exists)
    pub fn new_deploying(
        pr_number: u32,
        commit_hash: String,
        commit_hash_short: String,
        image_tag: String,
    ) -> (r: Self)
        ensures
            r@ == (PrInstanceView {
                pr_number,
                commit_hash: commit_hash@,
                commit_hash_short: commit_hash_short@,
                state: InstanceStateView::Deploying { image_tag: image_tag@ },
            }),
    {
        PrInstance {
            pr_number,
            commit_hash,
            commit_hash_short,
            state: InstanceState::Deploying { image_tag },
        }
    }

    /// Get the image tag for this instance
    pub fn image_tag(&self, registry: &str, image_name: &str) -> (r: String)
        ensures
            r@ == image_path(
                registry@,
                image_name@,
                build_tag(self.pr_number, self.commit_hash_short@),
            ),
    {
        let tag = build_tag_of(self.pr_number, self.commit_hash_short.as_str());
        image_path_of(registry, image_name, tag.as_str())
    }
}

/// The full path of an image: where it is kept, its name and its tag.
pub open spec fn image_path(registry: Seq<char>, image_name: Seq<char>, tag: Seq<char>) -> Seq<
    char,
> {
    registry + "/"@ + image_name + ":"@ + tag
}

/// The full path of an image: where it is kept, its name and its tag.
pub fn image_path_of(registry: &str, image_name: &str, tag: &str) -> (r: String)
    ensures
        r@ == image_path(registry@, image_name@, tag@),
{
    let mut s = registry.to_owned();
    s.append("/");
    s.append(image_name);
    s.append(":");
    s.append(tag);
    s
}

proof fn lemma_same_lead(lead: Seq<char>, a: Seq<char>, b: Seq<char>)
    requires
        lead + a == lead + b,
    ensures
        a == b,
{
    assert((lead + a).skip(lead.len() as int) =~= a);
    assert((lead + b).skip(lead.len() as int) =~= b);
}

/// Two PRs share neither a backend name nor the name of their deployment.
pub proof fn names_tell_prs_apart(a: u32, b: u32)
    requires
        backend_name(a) == backend_name(b) || resource_name(a) == resource_name(b),
    ensures
        a == b,
{
    if backend_name(a) == backend_name(b) {
        lemma_same_lead("pr-"@, decimal(a as nat), decimal(b as nat));
    } else {
        lemma_same_lead("steel-pr-"@, decimal(a as nat), decimal(b as nat));
    }
    crate::text::decimal_is_injective(a as nat, b as nat);
}

/// Two builds with the same tag are of the same PR and the same commit.
pub proof fn tags_tell_builds_apart(a: u32, x: Seq<char>, b: u32, y: Seq<char>)
    requires
        build_tag(a, x) == build_tag(b, y),
    ensures
        a == b,
        x == y,
{
    let m = decimal(a as nat);
    let n = decimal(b as nat);
    let left = m + ("-"@ + x);
    let right = n + ("-"@ + y);
    reveal_strlit("-");
    assert(build_tag(a, x) =~= "pr-"@ + left);
    assert(build_tag(b, y) =~= "pr-"@ + right);
    lemma_same_lead("pr-"@, left, right);
    decimal_is_read_back(a as nat);
    decimal_is_read_back(b as nat);
    assert(left[m.len() as int] == '-');
    assert(right[n.len() as int] == '-');
    if m.len() < n.len() {
        assert(is_digit(n[m.len() as int]));
    }
    if n.len() < m.len() {
        assert(is_digit(m[n.len() as int]));
    }
    assert(left.take(m.len() as int) =~= m);
    assert(right.take(n.len() as int) =~= n);
    crate::text::decimal_is_injective(a as nat, b as nat);
    lemma_same_lead(m, "-"@ + x, "-"@ + y);
    lemma_same_lead("-"@, x, y);
}

} // verus!
