//! Finding the instances again that ran when the proxy was last stopped.
use crate::db::models::{BindView, PrBuild, Statement, StatementView, DELETE};
use crate::k8s::instance::{
    backend_name, names_tell_prs_apart, resource_name, resource_name_of, InstanceState, Moment,
    PrInstance, PrInstanceView,
};
use crate::k8s::lifecycle::{
    offered, offered_when_ready, ready_ones_are_offered, ready_state, timeout_fits, Offer,
};
use crate::k8s::{pr_backend, Instances, K8sManager};
use crate::proxy::registry::{BackendRegistry, RegistryView};
use vstd::prelude::*;

verus! {

/// The PR whose number is kept in a record: the low 32 bits of what is kept.
pub open spec fn recorded_pr(build: PrBuild) -> u32 {
    build.pr_number as u32
}

/// A walk over the builds on record, one after the other.
#[derive(Debug)]
pub struct Recovery {
    builds: Vec<PrBuild>,
    at: usize,
    recovered: usize,
}

/// What is left of a walk, and what it has come to so far.
#[verifier::ext_equal]
pub struct RecoveryView {
    /// The builds not yet dealt with.
    pub left: Seq<PrBuild>,
    /// How many instances were found again.
    pub recovered: nat,
}

/// What is to be done next on a walk.
#[derive(Debug)]
pub enum RecoveryStep {
    /// Ask the cluster whether this deployment is ready.
    AskReadiness { deployment_name: String },
    /// Ask the cluster for the service of this name.
    AskService { service_name: String },
    /// Delete a build from the records, and go on whether or not that worked.
    Forget { statement: Statement },
    /// Nothing is left; this many instances were found again.
    Done { recovered: usize },
}

/// The values in a [`RecoveryStep`].
pub enum RecoveryStepView {
    AskReadiness { deployment_name: Seq<char> },
    AskService { service_name: Seq<char> },
    Forget { statement: StatementView },
    Done { recovered: nat },
}

impl View for RecoveryStep {
    type V = RecoveryStepView;

    open spec fn view(&self) -> RecoveryStepView {
        match self {
            RecoveryStep::AskReadiness { deployment_name } => RecoveryStepView::AskReadiness {
                deployment_name: deployment_name@,
            },
            RecoveryStep::AskService { service_name } => RecoveryStepView::AskService {
                service_name: service_name@,
            },
            RecoveryStep::Forget { statement } => RecoveryStepView::Forget {
                statement: statement@,
            },
            RecoveryStep::Done { recovered } => RecoveryStepView::Done {
                recovered: *recovered as nat,
            },
        }
    }
}

/// The statement that deletes the build of a PR.
pub open spec fn forget_statement(pr_number: u32) -> StatementView {
    StatementView { sql: DELETE@, binds: seq![BindView::Integer(pr_number as i64)] }
}

impl RecoveryView {
    /// How the walk goes on to its next build, or ends.
    pub open spec fn next_step(self) -> RecoveryStepView {
        if self.left.len() == 0 {
            RecoveryStepView::Done { recovered: self.recovered }
        } else {
            RecoveryStepView::AskReadiness {
                deployment_name: resource_name(recorded_pr(self.left[0])),
            }
        }
    }

    /// The walk after its first build was dealt with.
    pub open spec fn past(self, found: bool) -> RecoveryView {
        RecoveryView {
            left: self.left.skip(1),
            recovered: if found {
                self.recovered + 1
            } else {
                self.recovered
            },
        }
    }
}

/// The instance of a build that was found running.
pub open spec fn found_instance(
    build: PrBuild,
    address: Seq<char>,
    port: u16,
    timeout_minutes: u64,
    now: Moment,
) -> PrInstanceView {
    PrInstanceView {
        pr_number: recorded_pr(build),
        commit_hash: build.commit_hash@,
        commit_hash_short: build.commit_hash_short@,
        state: ready_state(
            resource_name(recorded_pr(build)),
            address,
            port,
            timeout_minutes,
            now,
        ),
    }
}

/// What the answer whether the deployment of the current build is ready comes to: the walk after it
/// and its next step. A build without a deployment is taken off the records, and one whose
/// deployment is not ready is left to the lifecycle.
pub open spec fn after_readiness(walk: RecoveryView, ready: Option<bool>) -> (
    RecoveryView,
    RecoveryStepView,
) {
    if walk.left.len() == 0 {
        (walk, walk.next_step())
    } else {
        let pr_number = recorded_pr(walk.left[0]);
        match ready {
            Some(true) => (
                walk,
                RecoveryStepView::AskService { service_name: resource_name(pr_number) },
            ),
            Some(false) => (walk.past(false), walk.past(false).next_step()),
            None => (
                walk.past(false),
                RecoveryStepView::Forget { statement: forget_statement(pr_number) },
            ),
        }
    }
}

/// What the answer where the service of the current build is comes to: the walk after it and its
/// next step. A build without a service is taken off the records.
pub open spec fn after_service(walk: RecoveryView, service: Option<(Seq<char>, u16)>) -> (
    RecoveryView,
    RecoveryStepView,
) {
    if walk.left.len() == 0 {
        (walk, walk.next_step())
    } else {
        match service {
            Some(_) => (walk.past(true), walk.past(true).next_step()),
            None => (
                walk.past(false),
                RecoveryStepView::Forget {
                    statement: forget_statement(recorded_pr(walk.left[0])),
                },
            ),
        }
    }
}

/// The instances after that answer: with a service, the build is taken up as ready.
pub open spec fn instances_after_service(
    walk: RecoveryView,
    m: Instances,
    service: Option<(Seq<char>, u16)>,
    timeout_minutes: u64,
    now: Moment,
) -> Instances {
    match service {
        Some((address, port)) if walk.left.len() > 0 => m.insert(
            recorded_pr(walk.left[0]),
            found_instance(walk.left[0], address, port, timeout_minutes, now),
        ),
        _ => m,
    }
}

/// The backends after that answer: with a service, the PR is offered there.
pub open spec fn backends_after_service(
    walk: RecoveryView,
    r: RegistryView,
    service: Option<(Seq<char>, u16)>,
) -> RegistryView {
    match service {
        Some((address, port)) if walk.left.len() > 0 => offered(
            r,
            recorded_pr(walk.left[0]),
            Offer::Open { address, port },
        ),
        _ => r,
    }
}

/// The service in an answer, where there is one and the request did not fail.
pub open spec fn service_in(reply: Result<Option<(String, u16)>, String>) -> Option<
    (Seq<char>, u16),
> {
    match reply {
        Ok(Some((address, port))) => Some((address@, port)),
        _ => None,
    }
}

impl View for Recovery {
    type V = RecoveryView;

    closed spec fn view(&self) -> RecoveryView {
        RecoveryView { left: self.builds@.skip(self.at as int), recovered: self.recovered as nat }
    }
}

impl Recovery {
    #[verifier::type_invariant]
    spec fn in_bounds(&self) -> bool {
        self.recovered <= self.at <= self.builds@.len()
    }

    /// A walk over these builds.
    pub fn new(builds: Vec<PrBuild>) -> (r: Recovery)
        ensures
            r@ == (RecoveryView { left: builds@, recovered: 0 }),
    {
        let r = Recovery { builds, at: 0, recovered: 0 };
        assert(r@.left =~= builds@);
        r
    }

    /// Goes on to the next build, or ends.
    pub fn next_step(&self) -> (r: RecoveryStep)
        ensures
            r@ == self@.next_step(),
    {
        proof {
            use_type_invariant(self);
        }
        if self.at == self.builds.len() {
            return RecoveryStep::Done { recovered: self.recovered };
        }
        assert(self@.left[0] == self.builds@[self.at as int]);
        RecoveryStep::AskReadiness { deployment_name: resource_name_of(self.pr_number()) }
    }

    fn pr_number(&self) -> (r: u32)
        requires
            self@.left.len() > 0,
        ensures
            r == recorded_pr(self@.left[0]),
    {
        proof {
            use_type_invariant(self);
        }
        assert(self@.left[0] == self.builds@[self.at as int]);
        #[verifier::truncate]
        let pr_number: u32 = self.builds[self.at].pr_number as u32;
        pr_number
    }

    fn pass(&mut self, found: bool)
        requires
            old(self)@.left.len() > 0,
        ensures
            final(self)@ == old(self)@.past(found),
    {
        proof {
            use_type_invariant(&*self);
        }
        let n: usize = self.builds.len();
        assert(self.at < n);
        let at: usize = self.at + 1;
        let recovered: usize = if found { self.recovered + 1 } else { self.recovered };
        let mut builds: Vec<PrBuild> = Vec::new();
        self.recovered = 0;
        self.at = 0;
        std::mem::swap(&mut builds, &mut self.builds);
        *self = Recovery { builds, at, recovered };
        assert(self@.left =~= old(self)@.left.skip(1));
    }

    /// Goes on after the cluster was asked whether the deployment of the current build is ready; no
    /// reply is a failed request. A build without a deployment is taken off the records, and one
    /// whose deployment is not ready is left to the lifecycle.
    pub fn on_readiness(&mut self, reply: Option<bool>) -> (r: RecoveryStep)
        ensures
            (final(self)@, r@) == after_readiness(old(self)@, reply),
    {
        proof {
            use_type_invariant(&*self);
        }
        if self.at == self.builds.len() {
            return self.next_step();
        }
        let pr_number: u32 = self.pr_number();
        match reply {
            Some(true) => RecoveryStep::AskService { service_name: resource_name_of(pr_number) },
            Some(false) => {
                self.pass(false);
                self.next_step()
            },
            None => {
                self.pass(false);
                RecoveryStep::Forget { statement: PrBuild::delete(pr_number) }
            },
        }
    }

    /// Goes on after the cluster was asked for the service of the current build. With a service,
    /// the instance is taken up as ready and offered as a backend; without one, or where the
    /// request failed, the build is taken off the records.
    pub fn on_service(
        &mut self,
        reply: Result<Option<(String, u16)>, String>,
        now: Moment,
        manager: &mut K8sManager,
        backends: &mut BackendRegistry,
    ) -> (r: RecoveryStep)
        requires
            old(self)@.left.len() > 0 && (reply matches Ok(Some(_))) ==> timeout_fits(
                old(manager).settings().instance_timeout_minutes,
                now,
            ),
        ensures
            (final(self)@, r@) == after_service(old(self)@, service_in(reply)),
            final(manager)@ == instances_after_service(
                old(self)@,
                old(manager)@,
                service_in(reply),
                old(manager).settings().instance_timeout_minutes,
                now,
            ),
            final(backends)@ == backends_after_service(
                old(self)@,
                old(backends)@,
                service_in(reply),
            ),
            final(manager).settings() == old(manager).settings(),
    {
        proof {
            use_type_invariant(&*self);
        }
        if self.at == self.builds.len() {
            return self.next_step();
        }
        assert(self@.left[0] == self.builds@[self.at as int]);
        let pr_number: u32 = self.pr_number();
        match reply {
            Ok(Some((address, port))) => {
                let shutdown_at = now.plus_minutes(manager.config().instance_timeout_minutes);
                let state = InstanceState::Ready {
                    deployment_name: resource_name_of(pr_number),
                    address: address.clone(),
                    port,
                    ready_at: now,
                    shutdown_at,
                };
                let instance = PrInstance {
                    pr_number,
                    commit_hash: self.builds[self.at].commit_hash.clone(),
                    commit_hash_short: self.builds[self.at].commit_hash_short.clone(),
                    state,
                };
                manager.put(pr_number, instance);
                manager.register_backend(pr_number, address, port, backends);
                self.pass(true);
                self.next_step()
            },
            _ => {
                self.pass(false);
                RecoveryStep::Forget { statement: PrBuild::delete(pr_number) }
            },
        }
    }
}

impl K8sManager {
    /// Recover instances from database on startup: the statement that reads the builds to walk over
    pub fn recover_from_db() -> (r: Statement)
        ensures
            r@ == (StatementView {
                sql: crate::db::models::GET_ACTIVE@,
                binds: Seq::empty(),
            }),
    {
        PrBuild::get_active_builds()
    }
}

/// A number of a PR that was put on record is found there again.
pub proof fn recorded_number_is_read_back(build: PrBuild, pr_number: u32)
    requires
        build.pr_number == pr_number as i64,
    ensures
        recorded_pr(build) == pr_number,
{
}

/// An instance that is found again is offered, and exactly the PRs with a ready instance stay so.
pub proof fn recovery_keeps_offers(
    m: Instances,
    r: RegistryView,
    build: PrBuild,
    address: Seq<char>,
    port: u16,
    timeout_minutes: u64,
    now: Moment,
)
    requires
        ready_ones_are_offered(m, r),
    ensures
        ready_ones_are_offered(
            m.insert(
                recorded_pr(build),
                found_instance(build, address, port, timeout_minutes, now),
            ),
            offered(r, recorded_pr(build), Offer::Open { address, port }),
        ),
{
    let own = recorded_pr(build);
    let m2 = m.insert(own, found_instance(build, address, port, timeout_minutes, now));
    let r2 = offered(r, own, Offer::Open { address, port });
    assert forall|pr: u32| #[trigger] offered_when_ready(m2, r2, pr) by {
        assert(offered_when_ready(m, r, pr));
        if pr != own && backend_name(pr) == backend_name(own) {
            names_tell_prs_apart(pr, own);
        }
    }
}

/// What the cluster answers on one build, as far as it is asked.
pub struct Findings {
    pub ready: Option<bool>,
    pub service: Option<(Seq<char>, u16)>,
    /// When the service was found.
    pub at: Moment,
}

impl Findings {
    /// Whether the build was found running: its deployment is ready and has a service.
    pub open spec fn runs(self) -> bool {
        self.ready == Some(true) && self.service is Some
    }

    /// Whether nothing of the build was found: no deployment, or one that is ready without a
    /// service.
    pub open spec fn is_gone(self) -> bool {
        self.ready is None || (self.ready == Some(true) && self.service is None)
    }
}

/// A walk, and what it has done so far.
pub struct WalkState {
    pub walk: RecoveryView,
    pub instances: Instances,
    pub backends: RegistryView,
    /// The statements that took builds off the records, in order.
    pub forgotten: Seq<StatementView>,
}

/// The statements run so far, after a step.
pub open spec fn forgotten_after(row: Seq<StatementView>, step: RecoveryStepView) -> Seq<
    StatementView,
> {
    match step {
        RecoveryStepView::Forget { statement } => row.push(statement),
        _ => row,
    }
}

/// The walk after its current build was dealt with: the cluster is asked whether the deployment is
/// ready, then for the service if the walk wants to know, and a build is taken off the records if
/// the walk says so.
pub open spec fn build_dealt_with(
    s: WalkState,
    findings: Findings,
    timeout_minutes: u64,
) -> WalkState {
    let (walk, step) = after_readiness(s.walk, findings.ready);
    if step is AskService {
        let (end, last) = after_service(walk, findings.service);
        WalkState {
            walk: end,
            instances: instances_after_service(
                walk,
                s.instances,
                findings.service,
                timeout_minutes,
                findings.at,
            ),
            backends: backends_after_service(walk, s.backends, findings.service),
            forgotten: forgotten_after(s.forgotten, last),
        }
    } else {
        WalkState { walk, forgotten: forgotten_after(s.forgotten, step), ..s }
    }
}

/// The walk after as many builds as there are findings.
pub open spec fn walked(s: WalkState, row: Seq<Findings>, timeout_minutes: u64) -> WalkState
    decreases row.len(),
{
    if row.len() == 0 {
        s
    } else {
        build_dealt_with(walked(s, row.drop_last(), timeout_minutes), row.last(), timeout_minutes)
    }
}

/// A walk over these builds that has not begun.
pub open spec fn walk_start(builds: Seq<PrBuild>, m: Instances, r: RegistryView) -> WalkState {
    WalkState {
        walk: RecoveryView { left: builds, recovered: 0 },
        instances: m,
        backends: r,
        forgotten: Seq::empty(),
    }
}

/// How many builds were found running.
pub open spec fn running_count(row: Seq<Findings>) -> nat
    decreases row.len(),
{
    if row.len() == 0 {
        0
    } else if row.last().runs() {
        running_count(row.drop_last()) + 1
    } else {
        running_count(row.drop_last())
    }
}

/// Of how many builds nothing was found.
pub open spec fn gone_count(row: Seq<Findings>) -> nat
    decreases row.len(),
{
    if row.len() == 0 {
        0
    } else if row.last().is_gone() {
        gone_count(row.drop_last()) + 1
    } else {
        gone_count(row.drop_last())
    }
}

/// Whether a build of the PR was found running.
pub open spec fn found_running(
    builds: Seq<PrBuild>,
    row: Seq<Findings>,
    pr_number: u32,
) -> bool {
    exists|i: int|
        0 <= i < row.len() && (#[trigger] row[i]).runs() && recorded_pr(builds[i]) == pr_number
}

/// Whether nothing was found of a build of the PR.
pub open spec fn found_gone(builds: Seq<PrBuild>, row: Seq<Findings>, pr_number: u32) -> bool {
    exists|i: int|
        0 <= i < row.len() && (#[trigger] row[i]).is_gone() && recorded_pr(builds[i]) == pr_number
}

/// Whether this build was found running, and no later one of the same PR was.
pub open spec fn last_running(builds: Seq<PrBuild>, row: Seq<Findings>, i: int) -> bool {
    &&& 0 <= i < row.len()
    &&& row[i].runs()
    &&& forall|j: int|
        i < j < row.len() && (#[trigger] row[j]).runs() ==> recorded_pr(builds[j]) != recorded_pr(
            builds[i],
        )
}

/// Whether a PR has the same instance, and is offered in the same way, as before.
pub open spec fn as_before(m: Instances, r: RegistryView, s: WalkState, pr_number: u32) -> bool {
    let name = backend_name(pr_number);
    &&& s.instances.contains_key(pr_number) == m.contains_key(pr_number)
    &&& m.contains_key(pr_number) ==> s.instances[pr_number] == m[pr_number]
    &&& s.backends.dynamic.contains_key(name) == r.dynamic.contains_key(name)
    &&& r.dynamic.contains_key(name) ==> s.backends.dynamic[name] == r.dynamic[name]
}

/// Whether a build became a ready instance and a backend.
pub open spec fn taken_up(
    build: PrBuild,
    findings: Findings,
    timeout_minutes: u64,
    s: WalkState,
) -> bool {
    let pr_number = recorded_pr(build);
    let (address, port) = findings.service->0;
    &&& s.instances.contains_key(pr_number)
    &&& s.instances[pr_number] == found_instance(
        build,
        address,
        port,
        timeout_minutes,
        findings.at,
    )
    &&& s.backends.dynamic.contains_key(backend_name(pr_number))
    &&& s.backends.dynamic[backend_name(pr_number)] == pr_backend(pr_number, address, port)
}

/// Whether the build of a PR is taken off the records exactly where nothing was found of it.
pub open spec fn rightly_forgotten(
    builds: Seq<PrBuild>,
    row: Seq<Findings>,
    s: WalkState,
    pr_number: u32,
) -> bool {
    s.forgotten.contains(forget_statement(pr_number)) <==> found_gone(builds, row, pr_number)
}

proof fn lemma_walked(
    builds: Seq<PrBuild>,
    row: Seq<Findings>,
    m: Instances,
    r: RegistryView,
    timeout_minutes: u64,
)
    requires
        row.len() <= builds.len(),
    ensures
        ({
            let end = walked(walk_start(builds, m, r), row, timeout_minutes);
            &&& end.walk.left == builds.skip(row.len() as int)
            &&& end.walk.recovered == running_count(row)
            &&& end.backends.fixed == r.fixed
            &&& end.forgotten.len() == gone_count(row)
            &&& ready_ones_are_offered(m, r) ==> ready_ones_are_offered(
                end.instances,
                end.backends,
            )
            &&& forall|pr: u32|
                !found_running(builds, row, pr) ==> #[trigger] as_before(m, r, end, pr)
            &&& forall|i: int|
                last_running(builds, row, i) ==> #[trigger] taken_up(
                    builds[i],
                    row[i],
                    timeout_minutes,
                    end,
                )
            &&& forall|pr: u32| #[trigger] rightly_forgotten(builds, row, end, pr)
        }),
    decreases row.len(),
{
    let end = walked(walk_start(builds, m, r), row, timeout_minutes);
    if row.len() == 0 {
        assert(builds.skip(0) =~= builds);
        assert forall|pr: u32| #[trigger] rightly_forgotten(builds, row, end, pr) by {}
    } else {
        let k = row.len() - 1;
        let front = row.drop_last();
        let f = row.last();
        let before = walked(walk_start(builds, m, r), front, timeout_minutes);
        lemma_walked(builds, front, m, r, timeout_minutes);
        let build = builds[k];
        let own = recorded_pr(build);
        assert(before.walk.left[0] == build);
        assert(builds.skip(k).skip(1) =~= builds.skip(k + 1));
        if f.runs() && ready_ones_are_offered(m, r) {
            let (address, port) = f.service->0;
            recovery_keeps_offers(
                before.instances,
                before.backends,
                build,
                address,
                port,
                timeout_minutes,
                f.at,
            );
        }
        assert forall|pr: u32| !found_running(builds, row, pr) implies #[trigger] as_before(
            m,
            r,
            end,
            pr,
        ) by {
            assert(!found_running(builds, front, pr)) by {
                if found_running(builds, front, pr) {
                    let i = choose|i: int|
                        0 <= i < front.len() && (#[trigger] front[i]).runs() && recorded_pr(
                            builds[i],
                        ) == pr;
                    assert(row[i].runs());
                }
            }
            assert(as_before(m, r, before, pr));
            if f.runs() {
                assert(row[k].runs());
                if backend_name(pr) == backend_name(own) {
                    names_tell_prs_apart(pr, own);
                }
            }
        }
        assert forall|i: int| last_running(builds, row, i) implies #[trigger] taken_up(
            builds[i],
            row[i],
            timeout_minutes,
            end,
        ) by {
            if i < k {
                assert forall|j: int| i < j < front.len() && (#[trigger] front[j]).runs() implies
                    recorded_pr(builds[j]) != recorded_pr(builds[i]) by {
                    assert(row[j].runs());
                }
                assert(front[i] == row[i]);
                assert(last_running(builds, front, i));
                assert(taken_up(builds[i], front[i], timeout_minutes, before));
                if f.runs() {
                    assert(row[k].runs());
                    if backend_name(recorded_pr(builds[i])) == backend_name(own) {
                        names_tell_prs_apart(recorded_pr(builds[i]), own);
                    }
                }
            }
        }
        assert forall|pr: u32| #[trigger] rightly_forgotten(builds, row, end, pr) by {
            assert(rightly_forgotten(builds, front, before, pr));
            lemma_forgotten_by_number(own, pr);
            if found_gone(builds, front, pr) {
                let i = choose|i: int|
                    0 <= i < front.len() && (#[trigger] front[i]).is_gone() && recorded_pr(
                        builds[i],
                    ) == pr;
                assert(row[i].is_gone());
            }
            if found_gone(builds, row, pr) {
                let i = choose|i: int|
                    0 <= i < row.len() && (#[trigger] row[i]).is_gone() && recorded_pr(builds[i])
                        == pr;
                if i < k {
                    assert(front[i].is_gone());
                }
            }
            let statement = forget_statement(pr);
            if before.forgotten.contains(statement) {
                let at = choose|at: int|
                    0 <= at < before.forgotten.len() && before.forgotten[at] == statement;
                assert(end.forgotten[at] == statement);
            }
            if f.is_gone() {
                assert(row[k].is_gone());
                assert(end.forgotten == before.forgotten.push(forget_statement(own)));
                assert(end.forgotten[before.forgotten.len() as int] == forget_statement(own));
                if end.forgotten.contains(statement) {
                    let at = choose|at: int|
                        0 <= at < end.forgotten.len() && end.forgotten[at] == statement;
                    if at < before.forgotten.len() {
                        assert(before.forgotten[at] == statement);
                    }
                }
            }
        }
    }
}

/// Builds of two PRs are taken off the records by two statements.
proof fn lemma_forgotten_by_number(a: u32, b: u32)
    ensures
        forget_statement(a) == forget_statement(b) ==> a == b,
{
    assert(forget_statement(a).binds[0] == BindView::Integer(a as i64));
    assert(forget_statement(b).binds[0] == BindView::Integer(b as i64));
}

/// A walk over all builds on record ends, whatever the cluster answers on each of them. It counts
/// the builds whose deployment was ready and had a service; exactly those become instances and
/// backends, the last of them where several are of one PR; a build is taken off the records exactly
/// where it had no deployment, or a ready one without a service, so that one whose deployment is
/// not ready is kept. Every other PR, and every backend from the settings file, stays as it was.
pub proof fn recovery_as_a_whole(
    builds: Seq<PrBuild>,
    row: Seq<Findings>,
    m: Instances,
    r: RegistryView,
    timeout_minutes: u64,
)
    requires
        row.len() == builds.len(),
    ensures
        ({
            let end = walked(walk_start(builds, m, r), row, timeout_minutes);
            &&& end.walk.next_step() == (RecoveryStepView::Done { recovered: running_count(row) })
            &&& forall|pr: u32|
                !found_running(builds, row, pr) ==> #[trigger] as_before(m, r, end, pr)
            &&& forall|i: int|
                last_running(builds, row, i) ==> #[trigger] taken_up(
                    builds[i],
                    row[i],
                    timeout_minutes,
                    end,
                )
            &&& forall|pr: u32| #[trigger] rightly_forgotten(builds, row, end, pr)
            &&& end.forgotten.len() == gone_count(row)
            &&& end.backends.fixed == r.fixed
            &&& ready_ones_are_offered(m, r) ==> ready_ones_are_offered(
                end.instances,
                end.backends,
            )
        }),
{
    lemma_walked(builds, row, m, r, timeout_minutes);
}

} // verus!
