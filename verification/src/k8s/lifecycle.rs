//! How PR instances move from build to shutdown.
//!
//! A turn of the lifecycle looks at one instance. [`begin_turn`] says what to do first; the caller
//! does it and hands the answer to the function for that answer, which says what to do next, until
//! nothing is left to do in this turn.
use crate::db::models::{upsert_statement, PrBuild, Statement, StatementView};
use crate::jenkins::{BuildStatus, BuildStatusView, JenkinsClient};
use crate::k8s::instance::{
    backend_name, build_tag, build_tag_of, nanos_between, InstanceState, InstanceStateView, Moment,
    PrInstance, PrInstanceView, NANOS_PER_SECOND,
};
use crate::k8s::{pr_backend, with_state, Instances, K8sManager};
use crate::proxy::registry::{BackendRegistry, RegistryView};
use crate::text::{decimal, numbered_with, push_decimal};
use vstd::prelude::*;

verus! {

/// Seconds between two turns of an instance.
pub const TURN_SECS: u64 = 10;

/// Seconds that a deployment may take to become ready.
pub const STARTUP_TIMEOUT_SECS: u64 = 300;

/// What is to be done next for an instance.
#[derive(Debug)]
pub enum LifecycleStep {
    /// Ask Jenkins where the build of this queue item is; the answer is for [`on_build_url`].
    AskBuildUrl { queue_url: String },
    /// Ask Jenkins for the status of this build; the answer is for [`on_build_status`].
    AskBuildStatus { build_url: String },
    /// Create the deployment, from the image of this tag; the answer is for [`on_deployment`].
    CreateDeployment { image_tag: String },
    /// Create the service in front of this deployment; the answer is for [`on_service`].
    CreateService { deployment_name: String },
    /// Ask the cluster whether this deployment is ready; the answer is for [`on_readiness`].
    AskReadiness { deployment_name: String, address: String, port: u16 },
    /// Record the finished build, and go on with [`on_saved`].
    SaveBuild { statement: Statement },
    /// Delete the deployment and the service; the answer is for [`on_deleted`].
    DeleteResources,
    /// Nothing in this turn.
    Idle,
}

/// The values in a [`LifecycleStep`].
pub enum StepView {
    AskBuildUrl { queue_url: Seq<char> },
    AskBuildStatus { build_url: Seq<char> },
    CreateDeployment { image_tag: Seq<char> },
    CreateService { deployment_name: Seq<char> },
    AskReadiness { deployment_name: Seq<char>, address: Seq<char>, port: u16 },
    SaveBuild { statement: StatementView },
    DeleteResources,
    Idle,
}

impl View for LifecycleStep {
    type V = StepView;

    open spec fn view(&self) -> StepView {
        match self {
            LifecycleStep::AskBuildUrl { queue_url } => StepView::AskBuildUrl {
                queue_url: queue_url@,
            },
            LifecycleStep::AskBuildStatus { build_url } => StepView::AskBuildStatus {
                build_url: build_url@,
            },
            LifecycleStep::CreateDeployment { image_tag } => StepView::CreateDeployment {
                image_tag: image_tag@,
            },
            LifecycleStep::CreateService { deployment_name } => StepView::CreateService {
                deployment_name: deployment_name@,
            },
            LifecycleStep::AskReadiness { deployment_name, address, port } =>
                StepView::AskReadiness {
                deployment_name: deployment_name@,
                address: address@,
                port: *port,
            },
            LifecycleStep::SaveBuild { statement } => StepView::SaveBuild { statement: statement@ },
            LifecycleStep::DeleteResources => StepView::DeleteResources,
            LifecycleStep::Idle => StepView::Idle,
        }
    }
}

/// What a part of a turn comes to, beside the changes that it made itself.
#[derive(Debug)]
pub struct Turn {
    /// A message to all players
    pub announce: Option<String>,
    /// What is to be done next
    pub step: LifecycleStep,
}

/// What becomes of an instance.
pub enum Change {
    /// It stays as it is.
    Keep,
    /// It goes to another state.
    To(InstanceStateView),
    /// It is forgotten.
    Forget,
}

/// What becomes of the backend under which a PR is offered.
pub enum Offer {
    /// It stays as it is.
    Keep,
    /// It is offered at this address.
    Open { address: Seq<char>, port: u16 },
    /// It is no longer offered.
    Close,
}

/// All that a part of a turn does.
pub struct Outcome {
    pub change: Change,
    pub offer: Offer,
    pub announce: Option<Seq<char>>,
    pub step: StepView,
}

/// The instances after a change to one of them.
pub open spec fn changed(m: Instances, pr_number: u32, change: Change) -> Instances {
    match change {
        Change::Keep => m,
        Change::To(state) => with_state(m, pr_number, state),
        Change::Forget => m.remove(pr_number),
    }
}

/// The registry after a change to what is offered for a PR.
pub open spec fn offered(r: RegistryView, pr_number: u32, offer: Offer) -> RegistryView {
    match offer {
        Offer::Keep => r,
        Offer::Open { address, port } => r.with_dynamic(
            backend_name(pr_number),
            pr_backend(pr_number, address, port),
        ),
        Offer::Close => r.without_dynamic(backend_name(pr_number)),
    }
}

impl Turn {
    /// Whether this part of a turn announces and asks for what the outcome says.
    pub open spec fn tells(&self, o: Outcome) -> bool {
        &&& crate::config::optional_text(self.announce) == o.announce
        &&& self.step@ == o.step
    }

    fn quiet(step: LifecycleStep) -> (r: Turn)
        ensures
            r.announce is None,
            r.step == step,
    {
        Turn { announce: None, step }
    }

    fn said(announce: String) -> (r: Turn)
        ensures
            r.announce == Some(announce),
            r.step@ == StepView::Idle,
    {
        Turn { announce: Some(announce), step: LifecycleStep::Idle }
    }
}

/// Nothing but a next step.
pub open spec fn only(step: StepView) -> Outcome {
    Outcome { change: Change::Keep, offer: Offer::Keep, announce: None, step }
}

/// A change of state, with a message or without.
pub open spec fn moves(state: InstanceStateView, announce: Option<Seq<char>>) -> Outcome {
    Outcome { change: Change::To(state), offer: Offer::Keep, announce, step: StepView::Idle }
}

/// A message that begins with the number of a PR.
pub open spec fn about(lead: Seq<char>, pr_number: u32, tail: Seq<char>) -> Seq<char> {
    lead + decimal(pr_number as nat) + tail
}

/// The start of a turn for an instance in Building state: a build that takes too long has failed;
/// otherwise the queue is asked, as far as the place in it is known.
pub open spec fn building_outcome(
    pr_number: u32,
    started_at: Moment,
    build_url: Option<Seq<char>>,
    build_timeout_minutes: u64,
    now: Moment,
) -> Outcome {
    if nanos_between(started_at, now) > build_timeout_minutes * 60 * NANOS_PER_SECOND {
        moves(
            InstanceStateView::Failed { reason: "Build timeout"@ },
            Some(
                "§c[Proxy] PR #"@ + decimal(pr_number as nat) + " build timed out after "@
                    + decimal(build_timeout_minutes as nat) + " minutes"@,
            ),
        )
    } else {
        match build_url {
            Some(queue_url) => only(StepView::AskBuildUrl { queue_url }),
            None => only(StepView::Idle),
        }
    }
}

/// The start of a turn for an instance in Starting state: a deployment that takes too long is shut
/// down; otherwise the cluster is asked.
pub open spec fn starting_outcome(
    pr_number: u32,
    deployment_name: Seq<char>,
    address: Seq<char>,
    port: u16,
    started_at: Moment,
    now: Moment,
) -> Outcome {
    if nanos_between(started_at, now) > STARTUP_TIMEOUT_SECS * NANOS_PER_SECOND {
        moves(
            InstanceStateView::ShuttingDown { deployment_name },
            Some(about("§c[Proxy] PR #"@, pr_number, " startup timed out"@)),
        )
    } else {
        only(StepView::AskReadiness { deployment_name, address, port })
    }
}

/// The turn of an instance in Ready state: once its time is over, it is no longer offered and is
/// shut down.
pub open spec fn ready_outcome(
    pr_number: u32,
    deployment_name: Seq<char>,
    shutdown_at: Moment,
    now: Moment,
) -> Outcome {
    if now.nanos >= shutdown_at.nanos {
        Outcome {
            change: Change::To(InstanceStateView::ShuttingDown { deployment_name }),
            offer: Offer::Close,
            announce: Some(
                about("§e[Proxy] PR #"@, pr_number, " is shutting down (timeout expired)"@),
            ),
            step: StepView::Idle,
        }
    } else {
        only(StepView::Idle)
    }
}

/// The start of a turn for an instance.
pub open spec fn turn_outcome(
    pr_number: u32,
    state: InstanceStateView,
    build_timeout_minutes: u64,
    now: Moment,
) -> Outcome {
    match state {
        InstanceStateView::Building { started_at, build_url } => building_outcome(
            pr_number,
            started_at,
            build_url,
            build_timeout_minutes,
            now,
        ),
        InstanceStateView::Deploying { image_tag } => only(
            StepView::CreateDeployment { image_tag },
        ),
        InstanceStateView::Starting { deployment_name, address, port, started_at } =>
            starting_outcome(pr_number, deployment_name, address, port, started_at, now),
        InstanceStateView::Ready { deployment_name, shutdown_at, .. } => ready_outcome(
            pr_number,
            deployment_name,
            shutdown_at,
            now,
        ),
        InstanceStateView::ShuttingDown { .. } => only(StepView::DeleteResources),
        InstanceStateView::Failed { .. } => Outcome {
            change: Change::Forget,
            offer: Offer::Keep,
            announce: None,
            step: StepView::Idle,
        },
    }
}

/// The answer to [`LifecycleStep::AskBuildUrl`]: only a build that has started is asked about.
pub open spec fn build_url_outcome(reply: Option<Option<Seq<char>>>) -> Outcome {
    match reply {
        Some(Some(build_url)) => only(StepView::AskBuildStatus { build_url }),
        _ => only(StepView::Idle),
    }
}

/// The answer to [`LifecycleStep::AskBuildStatus`]: a finished build is deployed, a failed one or
/// one that is not there has failed, and any other is asked about again later.
pub open spec fn build_status_outcome(
    pr_number: u32,
    commit_hash_short: Seq<char>,
    reply: Option<BuildStatusView>,
) -> Outcome {
    match reply {
        Some(BuildStatusView::Success) => moves(
            InstanceStateView::Deploying { image_tag: build_tag(pr_number, commit_hash_short) },
            Some(about("§a[Proxy] PR #"@, pr_number, " build completed! Deploying..."@)),
        ),
        Some(BuildStatusView::Failed { reason }) => moves(
            InstanceStateView::Failed { reason },
            Some(about("§c[Proxy] PR #"@, pr_number, " build failed: "@) + reason),
        ),
        Some(BuildStatusView::NotFound) => moves(
            InstanceStateView::Failed { reason: "Build not found"@ },
            None,
        ),
        _ => only(StepView::Idle),
    }
}

/// The answer to [`LifecycleStep::CreateDeployment`].
pub open spec fn deployment_outcome(pr_number: u32, reply: Result<Seq<char>, Seq<char>>) -> Outcome {
    match reply {
        Ok(deployment_name) => only(StepView::CreateService { deployment_name }),
        Err(text) => moves(
            InstanceStateView::Failed { reason: "Deployment failed: "@ + text },
            Some(about("§c[Proxy] Failed to deploy PR #"@, pr_number, ": "@) + text),
        ),
    }
}

/// The answer to [`LifecycleStep::CreateService`].
pub open spec fn service_outcome(
    pr_number: u32,
    deployment_name: Seq<char>,
    reply: Result<(Seq<char>, u16), Seq<char>>,
    now: Moment,
) -> Outcome {
    match reply {
        Ok((address, port)) => moves(
            InstanceStateView::Starting { deployment_name, address, port, started_at: now },
            None,
        ),
        Err(text) => moves(
            InstanceStateView::Failed { reason: "Service creation failed: "@ + text },
            Some(about("§c[Proxy] Failed to create service for PR #"@, pr_number, ": "@) + text),
        ),
    }
}

/// The state of an instance that became ready, and stays so for the minutes of the settings.
pub open spec fn ready_state(
    deployment_name: Seq<char>,
    address: Seq<char>,
    port: u16,
    timeout_minutes: u64,
    now: Moment,
) -> InstanceStateView {
    InstanceStateView::Ready {
        deployment_name,
        address,
        port,
        ready_at: now,
        shutdown_at: Moment {
            nanos: (now.nanos + timeout_minutes * 60 * NANOS_PER_SECOND) as u128,
        },
    }
}

/// Whether a moment the minutes of the settings after `now` can be told.
pub open spec fn timeout_fits(timeout_minutes: u64, now: Moment) -> bool {
    &&& timeout_minutes * 60 <= u64::MAX
    &&& now.nanos + timeout_minutes * 60 * NANOS_PER_SECOND <= u128::MAX
}

/// The answer to [`LifecycleStep::AskReadiness`]: a deployment that is ready is offered, and its
/// build is recorded; any other is asked about again later.
pub open spec fn readiness_outcome(
    pr_number: u32,
    commit_hash: Seq<char>,
    commit_hash_short: Seq<char>,
    deployment_name: Seq<char>,
    address: Seq<char>,
    port: u16,
    reply: Option<bool>,
    timeout_minutes: u64,
    now: Moment,
) -> Outcome {
    if reply == Some(true) {
        Outcome {
            change: Change::To(ready_state(deployment_name, address, port, timeout_minutes, now)),
            offer: Offer::Open { address, port },
            announce: None,
            step: StepView::SaveBuild {
                statement: upsert_statement(
                    pr_number,
                    commit_hash,
                    commit_hash_short,
                    build_tag(pr_number, commit_hash_short),
                    "Ready"@,
                    None,
                ),
            },
        }
    } else {
        only(StepView::Idle)
    }
}

/// The message that a PR can be played on.
pub open spec fn ready_message(pr_number: u32) -> Seq<char> {
    "§a[Proxy] PR #"@ + decimal(pr_number as nat) + " is ready! Use §e/server pr-"@ + decimal(
        pr_number as nat,
    ) + "§a to connect."@
}

/// The answer to [`LifecycleStep::SaveBuild`], whatever it is.
pub open spec fn saved_outcome(pr_number: u32) -> Outcome {
    Outcome {
        change: Change::Keep,
        offer: Offer::Keep,
        announce: Some(ready_message(pr_number)),
        step: StepView::Idle,
    }
}

/// The answer to [`LifecycleStep::DeleteResources`]: the instance is forgotten even where they
/// could not be deleted.
pub open spec fn deleted_outcome(pr_number: u32, reply: Option<Seq<char>>) -> Outcome {
    Outcome {
        change: Change::Forget,
        offer: Offer::Keep,
        announce: match reply {
            None => None,
            Some(text) => Some(
                about("§c[Proxy] Failed to clean up PR #"@, pr_number, ": "@) + text,
            ),
        },
        step: StepView::Idle,
    }
}

/// `lead`, the number of a PR, `tail` and then `text`.
fn about_with(lead: &str, pr_number: u32, tail: &str, text: &str) -> (r: String)
    ensures
        r@ == about(lead@, pr_number, tail@) + text@,
{
    let mut s = numbered_with(lead, pr_number, tail);
    s.append(text);
    s
}

/// Handle a building instance - poll Jenkins for build status
fn handle_building(
    pr_number: u32,
    started_at: &Moment,
    queue_url: &Option<String>,
    jenkins_client: &JenkinsClient,
    now: Moment,
    manager: &mut K8sManager,
) -> (r: Turn)
    requires
        jenkins_client.settings().build_timeout_minutes * 60 <= u64::MAX,
    ensures
        ({
            let o = building_outcome(
                pr_number,
                *started_at,
                crate::config::optional_text(*queue_url),
                jenkins_client.settings().build_timeout_minutes,
                now,
            );
            &&& r.tells(o)
            &&& final(manager)@ == changed(old(manager)@, pr_number, o.change)
            &&& o.offer == Offer::Keep
        }),
        final(manager).settings() == old(manager).settings(),
{
    let timeout: u64 = jenkins_client.build_timeout();
    if started_at.older_than(now, timeout) {
        let mut message = numbered_with("§c[Proxy] PR #", pr_number, " build timed out after ");
        push_decimal(&mut message, timeout / 60);
        message.append(" minutes");
        manager.update_instance_state(
            pr_number,
            InstanceState::Failed { reason: "Build timeout".to_owned() },
        );
        return Turn::said(message);
    }
    match queue_url {
        Some(url) => Turn::quiet(LifecycleStep::AskBuildUrl { queue_url: url.clone() }),
        None => Turn::quiet(LifecycleStep::Idle),
    }
}

/// Handle starting state - wait for pod readiness
fn handle_starting(
    pr_number: u32,
    deployment_name: &String,
    address: &String,
    port: u16,
    started_at: &Moment,
    now: Moment,
    manager: &mut K8sManager,
) -> (r: Turn)
    ensures
        ({
            let o = starting_outcome(
                pr_number,
                deployment_name@,
                address@,
                port,
                *started_at,
                now,
            );
            &&& r.tells(o)
            &&& final(manager)@ == changed(old(manager)@, pr_number, o.change)
            &&& o.offer == Offer::Keep
        }),
        final(manager).settings() == old(manager).settings(),
{
    if started_at.older_than(now, STARTUP_TIMEOUT_SECS) {
        manager.update_instance_state(
            pr_number,
            InstanceState::ShuttingDown { deployment_name: deployment_name.clone() },
        );
        return Turn::said(numbered_with("§c[Proxy] PR #", pr_number, " startup timed out"));
    }
    Turn::quiet(
        LifecycleStep::AskReadiness {
            deployment_name: deployment_name.clone(),
            address: address.clone(),
            port,
        },
    )
}

/// Handle ready state - check for shutdown timer
fn handle_ready(
    pr_number: u32,
    deployment_name: &String,
    shutdown_at: &Moment,
    now: Moment,
    manager: &mut K8sManager,
    backends: &mut BackendRegistry,
) -> (r: Turn)
    ensures
        ({
            let o = ready_outcome(pr_number, deployment_name@, *shutdown_at, now);
            &&& r.tells(o)
            &&& final(manager)@ == changed(old(manager)@, pr_number, o.change)
            &&& final(backends)@ == offered(old(backends)@, pr_number, o.offer)
        }),
        final(manager).settings() == old(manager).settings(),
{
    if now.nanos >= shutdown_at.nanos {
        manager.unregister_backend(pr_number, backends);
        manager.update_instance_state(
            pr_number,
            InstanceState::ShuttingDown { deployment_name: deployment_name.clone() },
        );
        return Turn::said(
            numbered_with("§e[Proxy] PR #", pr_number, " is shutting down (timeout expired)"),
        );
    }
    Turn::quiet(LifecycleStep::Idle)
}

/// Begins the turn of an instance, in the state in which it was found.
pub fn begin_turn(
    pr_number: u32,
    instance: &PrInstance,
    jenkins_client: &JenkinsClient,
    now: Moment,
    manager: &mut K8sManager,
    backends: &mut BackendRegistry,
) -> (r: Turn)
    requires
        instance.state is Building ==> jenkins_client.settings().build_timeout_minutes * 60
            <= u64::MAX,
    ensures
        ({
            let o = turn_outcome(
                pr_number,
                instance.state@,
                jenkins_client.settings().build_timeout_minutes,
                now,
            );
            &&& r.tells(o)
            &&& final(manager)@ == changed(old(manager)@, pr_number, o.change)
            &&& final(backends)@ == offered(old(backends)@, pr_number, o.offer)
        }),
        final(manager).settings() == old(manager).settings(),
{
    match &instance.state {
        InstanceState::Building { started_at, build_url } => handle_building(
            pr_number,
            started_at,
            build_url,
            jenkins_client,
            now,
            manager,
        ),
        InstanceState::Deploying { image_tag } => Turn::quiet(
            LifecycleStep::CreateDeployment { image_tag: image_tag.clone() },
        ),
        InstanceState::Starting { deployment_name, address, port, started_at } => handle_starting(
            pr_number,
            deployment_name,
            address,
            *port,
            started_at,
            now,
            manager,
        ),
        InstanceState::Ready { deployment_name, shutdown_at, .. } => handle_ready(
            pr_number,
            deployment_name,
            shutdown_at,
            now,
            manager,
            backends,
        ),
        InstanceState::ShuttingDown { .. } => Turn::quiet(LifecycleStep::DeleteResources),
        InstanceState::Failed { .. } => {
            manager.remove_instance(pr_number);
            Turn::quiet(LifecycleStep::Idle)
        },
    }
}

/// The optional text of an answer.
pub open spec fn answer_text(reply: Option<Option<String>>) -> Option<Option<Seq<char>>> {
    match reply {
        Some(t) => Some(crate::config::optional_text(t)),
        None => None,
    }
}

/// Goes on after Jenkins was asked where a build is; no reply is a failed request.
pub fn on_build_url(reply: Option<Option<String>>) -> (r: Turn)
    ensures
        r.tells(build_url_outcome(answer_text(reply))),
{
    match reply {
        Some(Some(build_url)) => Turn::quiet(LifecycleStep::AskBuildStatus { build_url }),
        _ => Turn::quiet(LifecycleStep::Idle),
    }
}

/// Goes on after Jenkins was asked for the status of a build; no reply is a failed request.
pub fn on_build_status(
    pr_number: u32,
    commit_hash_short: &str,
    reply: Option<BuildStatus>,
    manager: &mut K8sManager,
) -> (r: Turn)
    ensures
        ({
            let o = build_status_outcome(
                pr_number,
                commit_hash_short@,
                match reply {
                    Some(s) => Some(s@),
                    None => None,
                },
            );
            &&& r.tells(o)
            &&& final(manager)@ == changed(old(manager)@, pr_number, o.change)
            &&& o.offer == Offer::Keep
        }),
        final(manager).settings() == old(manager).settings(),
{
    match reply {
        Some(BuildStatus::Success) => {
            let image_tag = build_tag_of(pr_number, commit_hash_short);
            manager.update_instance_state(pr_number, InstanceState::Deploying { image_tag });
            Turn::said(
                numbered_with("§a[Proxy] PR #", pr_number, " build completed! Deploying..."),
            )
        },
        Some(BuildStatus::Failed { reason }) => {
            let message = about_with(
                "§c[Proxy] PR #",
                pr_number,
                " build failed: ",
                reason.as_str(),
            );
            manager.update_instance_state(pr_number, InstanceState::Failed { reason });
            Turn::said(message)
        },
        Some(BuildStatus::NotFound) => {
            manager.update_instance_state(
                pr_number,
                InstanceState::Failed { reason: "Build not found".to_owned() },
            );
            Turn::quiet(LifecycleStep::Idle)
        },
        Some(BuildStatus::Building) | Some(BuildStatus::Queued) | None => Turn::quiet(
            LifecycleStep::Idle,
        ),
    }
}

/// `lead` followed by `text`.
fn led(lead: &str, text: &str) -> (r: String)
    ensures
        r@ == lead@ + text@,
{
    let mut s = lead.to_owned();
    s.append(text);
    s
}

/// Handle deploying state - goes on after the deployment was to be created
pub fn on_deployment(
    pr_number: u32,
    reply: Result<String, String>,
    manager: &mut K8sManager,
) -> (r: Turn)
    ensures
        ({
            let o = deployment_outcome(
                pr_number,
                match reply {
                    Ok(name) => Ok(name@),
                    Err(text) => Err(text@),
                },
            );
            &&& r.tells(o)
            &&& final(manager)@ == changed(old(manager)@, pr_number, o.change)
            &&& o.offer == Offer::Keep
        }),
        final(manager).settings() == old(manager).settings(),
{
    match reply {
        Ok(deployment_name) => Turn::quiet(LifecycleStep::CreateService { deployment_name }),
        Err(text) => {
            manager.update_instance_state(
                pr_number,
                InstanceState::Failed { reason: led("Deployment failed: ", text.as_str()) },
            );
            Turn::said(
                about_with("§c[Proxy] Failed to deploy PR #", pr_number, ": ", text.as_str()),
            )
        },
    }
}

/// Goes on after the service was to be created.
pub fn on_service(
    pr_number: u32,
    deployment_name: String,
    reply: Result<(String, u16), String>,
    now: Moment,
    manager: &mut K8sManager,
) -> (r: Turn)
    ensures
        ({
            let o = service_outcome(
                pr_number,
                deployment_name@,
                match reply {
                    Ok((address, port)) => Ok((address@, port)),
                    Err(text) => Err(text@),
                },
                now,
            );
            &&& r.tells(o)
            &&& final(manager)@ == changed(old(manager)@, pr_number, o.change)
            &&& o.offer == Offer::Keep
        }),
        final(manager).settings() == old(manager).settings(),
{
    match reply {
        Ok((address, port)) => {
            manager.update_instance_state(
                pr_number,
                InstanceState::Starting { deployment_name, address, port, started_at: now },
            );
            Turn::quiet(LifecycleStep::Idle)
        },
        Err(text) => {
            manager.update_instance_state(
                pr_number,
                InstanceState::Failed { reason: led("Service creation failed: ", text.as_str()) },
            );
            Turn::said(
                about_with(
                    "§c[Proxy] Failed to create service for PR #",
                    pr_number,
                    ": ",
                    text.as_str(),
                ),
            )
        },
    }
}

/// Goes on after the cluster was asked whether a deployment is ready; no reply is a failed
/// request.
pub fn on_readiness(
    pr_number: u32,
    instance: &PrInstance,
    deployment_name: String,
    address: String,
    port: u16,
    reply: Option<bool>,
    now: Moment,
    manager: &mut K8sManager,
    backends: &mut BackendRegistry,
) -> (r: Turn)
    requires
        reply == Some(true) ==> timeout_fits(
            old(manager).settings().instance_timeout_minutes,
            now,
        ),
    ensures
        ({
            let o = readiness_outcome(
                pr_number,
                instance.commit_hash@,
                instance.commit_hash_short@,
                deployment_name@,
                address@,
                port,
                reply,
                old(manager).settings().instance_timeout_minutes,
                now,
            );
            &&& r.tells(o)
            &&& final(manager)@ == changed(old(manager)@, pr_number, o.change)
            &&& final(backends)@ == offered(old(backends)@, pr_number, o.offer)
        }),
        final(manager).settings() == old(manager).settings(),
{
    match reply {
        Some(true) => {
            manager.register_backend(pr_number, address.clone(), port, backends);
            let shutdown_at = now.plus_minutes(manager.config().instance_timeout_minutes);
            manager.update_instance_state(
                pr_number,
                InstanceState::Ready { deployment_name, address, port, ready_at: now, shutdown_at },
            );
            let image_tag = build_tag_of(pr_number, instance.commit_hash_short.as_str());
            let statement = PrBuild::upsert(
                pr_number,
                instance.commit_hash.as_str(),
                instance.commit_hash_short.as_str(),
                image_tag.as_str(),
                "Ready",
                None,
            );
            Turn::quiet(LifecycleStep::SaveBuild { statement })
        },
        _ => Turn::quiet(LifecycleStep::Idle),
    }
}

/// Goes on after the build was to be recorded; it is announced even where that failed.
pub fn on_saved(pr_number: u32) -> (r: Turn)
    ensures
        r.tells(saved_outcome(pr_number)),
{
    let mut message = numbered_with("§a[Proxy] PR #", pr_number, " is ready! Use §e/server pr-");
    push_decimal(&mut message, pr_number as u64);
    message.append("§a to connect.");
    Turn::said(message)
}

/// Handle shutting down state - goes on after the resources were to be deleted; a reply is the
/// reason why they were not
pub fn on_deleted(pr_number: u32, reply: Option<String>, manager: &mut K8sManager) -> (r: Turn)
    ensures
        ({
            let o = deleted_outcome(pr_number, crate::config::optional_text(reply));
            &&& r.tells(o)
            &&& final(manager)@ == changed(old(manager)@, pr_number, o.change)
            &&& o.offer == Offer::Keep
        }),
        final(manager).settings() == old(manager).settings(),
{
    manager.remove_instance(pr_number);
    match reply {
        None => Turn::quiet(LifecycleStep::Idle),
        Some(text) => Turn::said(
            about_with("§c[Proxy] Failed to clean up PR #", pr_number, ": ", text.as_str()),
        ),
    }
}

/// What happens to an instance: its turn comes, or something that it asked for is answered.
#[allow(inconsistent_fields)]
pub enum Event {
    Turn { build_timeout_minutes: u64, now: Moment },
    BuildUrl { reply: Option<Option<Seq<char>>> },
    BuildStatus { reply: Option<BuildStatusView> },
    Deployment { reply: Result<Seq<char>, Seq<char>> },
    Service { deployment_name: Seq<char>, reply: Result<(Seq<char>, u16), Seq<char>>, now: Moment },
    Readiness { reply: Option<bool>, timeout_minutes: u64, now: Moment },
    Saved,
    Deleted { reply: Option<Seq<char>> },
}

/// Whether an instance in that state can have asked for what the event answers.
pub open spec fn expected(state: InstanceStateView, event: Event) -> bool {
    match event {
        Event::Turn { .. } => true,
        Event::BuildUrl { .. } => state is Building,
        Event::BuildStatus { .. } => state is Building,
        Event::Deployment { .. } => state is Deploying,
        Event::Service { .. } => state is Deploying,
        Event::Readiness { .. } => state is Starting,
        Event::Saved => state is Ready,
        Event::Deleted { .. } => state is ShuttingDown,
    }
}

/// All that an event does to an instance.
pub open spec fn event_outcome(pr_number: u32, instance: PrInstanceView, event: Event) -> Outcome {
    match event {
        Event::Turn { build_timeout_minutes, now } => turn_outcome(
            pr_number,
            instance.state,
            build_timeout_minutes,
            now,
        ),
        Event::BuildUrl { reply } => build_url_outcome(reply),
        Event::BuildStatus { reply } => build_status_outcome(
            pr_number,
            instance.commit_hash_short,
            reply,
        ),
        Event::Deployment { reply } => deployment_outcome(pr_number, reply),
        Event::Service { deployment_name, reply, now } => service_outcome(
            pr_number,
            deployment_name,
            reply,
            now,
        ),
        Event::Readiness { reply, timeout_minutes, now } => readiness_outcome(
            pr_number,
            instance.commit_hash,
            instance.commit_hash_short,
            instance.state->Starting_deployment_name,
            instance.state->Starting_address,
            instance.state->Starting_port,
            reply,
            timeout_minutes,
            now,
        ),
        Event::Saved => saved_outcome(pr_number),
        Event::Deleted { reply } => deleted_outcome(pr_number, reply),
    }
}

/// Whether the second state may come directly after the first.
pub open spec fn follows(from: InstanceStateView, to: InstanceStateView) -> bool {
    match from {
        InstanceStateView::Building { .. } => to is Deploying || to is Failed,
        InstanceStateView::Deploying { .. } => to is Starting || to is Failed,
        InstanceStateView::Starting { .. } => to is Ready || to is ShuttingDown,
        InstanceStateView::Ready { .. } => to is ShuttingDown,
        InstanceStateView::ShuttingDown { .. } => false,
        InstanceStateView::Failed { .. } => false,
    }
}

/// How many changes of state an instance can still go through.
pub open spec fn changes_left(state: InstanceStateView) -> nat {
    match state {
        InstanceStateView::Building { .. } => 4,
        InstanceStateView::Deploying { .. } => 3,
        InstanceStateView::Starting { .. } => 2,
        InstanceStateView::Ready { .. } => 1,
        InstanceStateView::ShuttingDown { .. } => 0,
        InstanceStateView::Failed { .. } => 0,
    }
}

/// An instance only goes from building to deploying, starting, ready and shutting down, or leaves
/// that row by failing; it never goes back, and only one that failed or is shut down is forgotten.
pub proof fn states_follow_in_order(pr_number: u32, instance: PrInstanceView, event: Event)
    requires
        expected(instance.state, event),
    ensures
        match event_outcome(pr_number, instance, event).change {
            Change::Keep => true,
            Change::To(state) => follows(instance.state, state) && changes_left(state)
                < changes_left(instance.state),
            Change::Forget => instance.state is ShuttingDown || instance.state is Failed,
        },
{
}

/// Every instance is kept under its own number, and for the commit that it was made for, whatever
/// happens to it or to another.
pub proof fn instances_keep_their_commit(m: Instances, pr_number: u32, event: Event, other: u32)
    requires
        m.contains_key(pr_number),
        expected(m[pr_number].state, event),
    ensures
        ({
            let m2 = changed(m, pr_number, event_outcome(pr_number, m[pr_number], event).change);
            m2.contains_key(other) ==> {
                &&& m.contains_key(other)
                &&& m2[other].pr_number == m[other].pr_number
                &&& m2[other].commit_hash == m[other].commit_hash
                &&& m2[other].commit_hash_short == m[other].commit_hash_short
            }
        }),
{
}

/// Whether a PR is offered as a dynamic backend exactly where it has a ready instance, and then at
/// the address of that instance.
pub open spec fn offered_when_ready(m: Instances, r: RegistryView, pr_number: u32) -> bool {
    if m.contains_key(pr_number) && m[pr_number].state is Ready {
        &&& r.dynamic.contains_key(backend_name(pr_number))
        &&& r.dynamic[backend_name(pr_number)] == pr_backend(
            pr_number,
            m[pr_number].state->Ready_address,
            m[pr_number].state->Ready_port,
        )
    } else {
        !r.dynamic.contains_key(backend_name(pr_number))
    }
}

/// Whether exactly the PRs with a ready instance are offered as dynamic backends, each at the
/// address of its instance.
pub open spec fn ready_ones_are_offered(m: Instances, r: RegistryView) -> bool {
    forall|pr: u32| #[trigger] offered_when_ready(m, r, pr)
}

/// Whatever happens to an instance, exactly the PRs with a ready instance stay offered.
pub proof fn events_keep_offers(m: Instances, r: RegistryView, pr_number: u32, event: Event)
    requires
        ready_ones_are_offered(m, r),
        m.contains_key(pr_number),
        expected(m[pr_number].state, event),
    ensures
        ({
            let o = event_outcome(pr_number, m[pr_number], event);
            ready_ones_are_offered(
                changed(m, pr_number, o.change),
                offered(r, pr_number, o.offer),
            )
        }),
{
    let o = event_outcome(pr_number, m[pr_number], event);
    let m2 = changed(m, pr_number, o.change);
    let r2 = offered(r, pr_number, o.offer);
    assert forall|pr: u32| #[trigger] offered_when_ready(m2, r2, pr) by {
        assert(offered_when_ready(m, r, pr));
        if pr != pr_number && backend_name(pr) == backend_name(pr_number) {
            crate::k8s::instance::names_tell_prs_apart(pr, pr_number);
        }
    }
}

/// A PR without an instance can be given a building or a deploying one, and exactly the PRs with a
/// ready instance stay offered.
pub proof fn new_instances_keep_offers(
    m: Instances,
    r: RegistryView,
    pr_number: u32,
    instance: PrInstanceView,
)
    requires
        ready_ones_are_offered(m, r),
        !m.contains_key(pr_number),
        instance.state is Building || instance.state is Deploying,
    ensures
        ready_ones_are_offered(m.insert(pr_number, instance), r),
{
    let m2 = m.insert(pr_number, instance);
    assert forall|pr: u32| #[trigger] offered_when_ready(m2, r, pr) by {
        assert(offered_when_ready(m, r, pr));
    }
}

/// What happens to one instance changes neither another instance, nor what is offered for another
/// PR, nor any backend from the settings file.
pub proof fn events_leave_others_alone(
    m: Instances,
    r: RegistryView,
    pr_number: u32,
    event: Event,
    other: u32,
)
    requires
        m.contains_key(pr_number),
        expected(m[pr_number].state, event),
        other != pr_number,
    ensures
        ({
            let o = event_outcome(pr_number, m[pr_number], event);
            let m2 = changed(m, pr_number, o.change);
            let r2 = offered(r, pr_number, o.offer);
            &&& m2.contains_key(other) == m.contains_key(other)
            &&& m.contains_key(other) ==> m2[other] == m[other]
            &&& r2.find(backend_name(other)) == r.find(backend_name(other))
            &&& r2.fixed == r.fixed
        }),
{
    if backend_name(other) == backend_name(pr_number) {
        crate::k8s::instance::names_tell_prs_apart(other, pr_number);
    }
}

/// An instance that became ready stays so for exactly the minutes of the settings: at its first
/// turn after them it is shut down and no longer offered, and at none before.
pub proof fn ready_for_its_minutes(
    pr_number: u32,
    deployment_name: Seq<char>,
    address: Seq<char>,
    port: u16,
    timeout_minutes: u64,
    ready_at: Moment,
    build_timeout_minutes: u64,
    now: Moment,
)
    requires
        timeout_fits(timeout_minutes, ready_at),
    ensures
        ({
            let state = ready_state(deployment_name, address, port, timeout_minutes, ready_at);
            let o = turn_outcome(pr_number, state, build_timeout_minutes, now);
            if now.nanos >= ready_at.nanos + timeout_minutes * 60 * NANOS_PER_SECOND {
                &&& o.change == Change::To(InstanceStateView::ShuttingDown { deployment_name })
                &&& o.offer == Offer::Close
            } else {
                o == only(StepView::Idle)
            }
        }),
{
}

/// The image that is recorded for a ready instance is the one that was deployed for its build.
pub proof fn deployed_image_is_recorded(
    pr_number: u32,
    instance: PrInstanceView,
    starting: PrInstanceView,
    timeout_minutes: u64,
    now: Moment,
)
    requires
        starting.state is Starting,
        starting.commit_hash_short == instance.commit_hash_short,
        instance.state is Building,
    ensures
        event_outcome(
            pr_number,
            instance,
            Event::BuildStatus { reply: Some(BuildStatusView::Success) },
        ).change == Change::To(
            InstanceStateView::Deploying {
                image_tag: build_tag(pr_number, instance.commit_hash_short),
            },
        ),
        event_outcome(
            pr_number,
            starting,
            Event::Readiness { reply: Some(true), timeout_minutes, now },
        ).step == (StepView::SaveBuild {
            statement: upsert_statement(
                pr_number,
                starting.commit_hash,
                starting.commit_hash_short,
                build_tag(pr_number, instance.commit_hash_short),
                "Ready"@,
                None,
            ),
        }),
{
}

} // verus!
