//! The way of a PR instance from its build to its end.
use crate::jenkins::BuildStatusView;
use crate::k8s::instance::{
    backend_name, build_tag, nanos_between, InstanceStateView, Moment, PrInstanceView,
    NANOS_PER_SECOND,
};
use crate::k8s::lifecycle::{
    build_status_outcome, build_url_outcome, building_outcome, changed, deleted_outcome,
    deployment_outcome, event_outcome, expected, offered, readiness_outcome, ready_message,
    ready_outcome, saved_outcome, service_outcome, starting_outcome, timeout_fits, turn_outcome,
    Change, Event, Offer, StepView, STARTUP_TIMEOUT_SECS, TURN_SECS,
};
use crate::k8s::turn::{answer_outcome, Answers, Limits};
use crate::k8s::{pr_backend, with_state, Instances};
use crate::proxy::client_handler::{login_route, HandlerStepView};
use crate::proxy::registry::RegistryView;
use crate::proxy::ProxyView;
use crate::text::{decimal, is_digit};
use vstd::prelude::*;

verus! {

/// Whether a text speaks of the PR of this number, and not of one whose number only begins alike.
pub open spec fn names_pr(text: Seq<char>, pr_number: u32) -> bool {
    exists|lead: Seq<char>, tail: Seq<char>|
        text == #[trigger] ((lead + ("PR #"@ + decimal(pr_number as nat))) + tail) && (tail.len()
            == 0 || !is_digit(tail[0]))
}

/// A number behind `PR #`, and something other than a digit behind it, names the PR.
pub proof fn lemma_names_pr(lead: Seq<char>, pr_number: u32, tail: Seq<char>)
    requires
        "PR #"@.is_suffix_of(lead),
        tail.len() == 0 || !is_digit(tail[0]),
    ensures
        names_pr(lead + decimal(pr_number as nat) + tail, pr_number),
{
    let n = decimal(pr_number as nat);
    let front = lead.take(lead.len() - "PR #"@.len());
    assert(lead =~= front + "PR #"@);
    assert(lead + n + tail =~= (front + ("PR #"@ + n)) + tail);
}

/// What a text ends with, behind something else, it ends with.
pub proof fn lemma_ends_with(lead: Seq<char>, tail: Seq<char>)
    ensures
        tail.is_suffix_of(lead + tail),
{
    assert((lead + tail).subrange(lead.len() as int, (lead + tail).len() as int) =~= tail);
}

/// Time is told by differences alone: the nanoseconds from one moment to one that is `passed` later
/// are `passed`, wherever on the clock both are, and there are none to an earlier moment.
pub proof fn clock_tells_differences(start: Moment, passed: u128)
    requires
        start.nanos + passed <= u128::MAX,
    ensures
        nanos_between(start, Moment { nanos: (start.nanos + passed) as u128 }) == passed,
        nanos_between(Moment { nanos: (start.nanos + passed) as u128 }, start) == 0,
{
}

/// Players reach an instance where its service is: the address and the port in the answer to the
/// creation of the service are those that the starting instance holds, those that it holds once it
/// is ready, those of the backend that is opened for it, and those that a player who asks for it is
/// connected to.
pub proof fn players_reach_the_service(
    m: Instances,
    r: RegistryView,
    pr_number: u32,
    deployment_name: Seq<char>,
    address: Seq<char>,
    port: u16,
    service_at: Moment,
    timeout_minutes: u64,
    now: Moment,
    p: ProxyView,
    default_server: Seq<char>,
    player: (Seq<char>, u128),
)
    requires
        m.contains_key(pr_number),
        m[pr_number].state is Deploying,
        timeout_fits(timeout_minutes, now),
        p.switches.contains_key(player.1),
        p.switches[player.1] == backend_name(pr_number),
    ensures
        ({
            let created = event_outcome(
                pr_number,
                m[pr_number],
                Event::Service { deployment_name, reply: Ok((address, port)), now: service_at },
            );
            let m1 = changed(m, pr_number, created.change);
            let found = event_outcome(
                pr_number,
                m1[pr_number],
                Event::Readiness { reply: Some(true), timeout_minutes, now },
            );
            let m2 = changed(m1, pr_number, found.change);
            let r2 = offered(r, pr_number, found.offer);
            let route = login_route(
                ProxyView { backends: r2, ..p },
                default_server,
                player,
            );
            &&& m1[pr_number].state == (InstanceStateView::Starting {
                deployment_name,
                address,
                port,
                started_at: service_at,
            })
            &&& m2[pr_number].state matches InstanceStateView::Ready {
                deployment_name: d,
                address: a,
                port: q,
                ready_at,
                shutdown_at,
            }
            &&& d == deployment_name
            &&& a == address
            &&& q == port
            &&& ready_at == now
            &&& shutdown_at.nanos == now.nanos + timeout_minutes * 60_000_000_000
            &&& r2.find(backend_name(pr_number)) matches Some(b)
            &&& b.address == address
            &&& b.port == port
            &&& route matches Ok(step)
            &&& step matches HandlerStepView::Connect { backend_name: name, connector }
            &&& name == backend_name(pr_number)
            &&& connector.address == address
            &&& connector.port == port
        }),
{
}

/// A starting instance that is found ready keeps its deployment, its address and its port, and is
/// offered there; one that is not found ready stays as it is, and nothing is offered or announced.
pub proof fn readiness_keeps_the_place(
    pr_number: u32,
    instance: PrInstanceView,
    reply: Option<bool>,
    timeout_minutes: u64,
    now: Moment,
)
    requires
        instance.state is Starting,
        reply == Some(true) ==> timeout_fits(timeout_minutes, now),
    ensures
        ({
            let o = event_outcome(
                pr_number,
                instance,
                Event::Readiness { reply, timeout_minutes, now },
            );
            let place = (
                instance.state->Starting_deployment_name,
                instance.state->Starting_address,
                instance.state->Starting_port,
            );
            &&& o.announce is None
            &&& if reply == Some(true) {
                &&& o.change matches Change::To(s)
                &&& s matches InstanceStateView::Ready {
                    deployment_name,
                    address,
                    port,
                    ready_at,
                    shutdown_at,
                }
                &&& (deployment_name, address, port) == place
                &&& ready_at == now
                &&& shutdown_at.nanos - ready_at.nanos == timeout_minutes * 60_000_000_000
                &&& o.offer matches Offer::Open { address: a, port: q }
                &&& (a, q) == (place.1, place.2)
                &&& o.step is SaveBuild
            } else {
                &&& o.change is Keep
                &&& o.offer is Keep
                &&& o.step is Idle
            }
        }),
{
}

/// A turn fails a building instance exactly where more than the minutes of the build timeout have
/// passed since that build was started. Before that, the instance stays as it is, nothing is
/// announced, and Jenkins is asked for the place in the queue, if the instance has one.
pub proof fn build_fails_after_its_minutes(
    pr_number: u32,
    started_at: Moment,
    build_url: Option<Seq<char>>,
    minutes: u64,
    now: Moment,
)
    ensures
        ({
            let o = turn_outcome(
                pr_number,
                InstanceStateView::Building { started_at, build_url },
                minutes,
                now,
            );
            &&& o.offer is Keep
            &&& if now.nanos > started_at.nanos + minutes * 60_000_000_000 {
                &&& o.change == Change::To(
                    InstanceStateView::Failed { reason: "Build timeout"@ },
                )
                &&& o.step is Idle
                &&& o.announce is Some
            } else {
                &&& o.change is Keep
                &&& o.announce is None
                &&& match build_url {
                    Some(url) => o.step matches StepView::AskBuildUrl { queue_url } && queue_url
                        == url,
                    None => o.step is Idle,
                }
            }
        }),
{
}

/// A turn shuts a starting instance down exactly where more than five minutes have passed since its
/// service was there. Before that, the instance stays as it is, nothing is announced, and the
/// cluster is asked for its own deployment.
pub proof fn startup_fails_after_five_minutes(
    pr_number: u32,
    deployment_name: Seq<char>,
    address: Seq<char>,
    port: u16,
    started_at: Moment,
    minutes: u64,
    now: Moment,
)
    ensures
        ({
            let o = turn_outcome(
                pr_number,
                InstanceStateView::Starting { deployment_name, address, port, started_at },
                minutes,
                now,
            );
            &&& o.offer is Keep
            &&& if now.nanos > started_at.nanos + 300_000_000_000 {
                &&& o.change == Change::To(InstanceStateView::ShuttingDown { deployment_name })
                &&& o.step is Idle
                &&& o.announce is Some
            } else {
                &&& o.change is Keep
                &&& o.announce is None
                &&& o.step == (StepView::AskReadiness { deployment_name, address, port })
            }
        }),
{
}

/// A turn shuts a ready instance down, and closes its backend, exactly from the moment on that the
/// instance holds; it stays with its deployment.
pub proof fn ready_until_its_moment(
    pr_number: u32,
    deployment_name: Seq<char>,
    address: Seq<char>,
    port: u16,
    ready_at: Moment,
    shutdown_at: Moment,
    minutes: u64,
    now: Moment,
)
    ensures
        ({
            let o = turn_outcome(
                pr_number,
                InstanceStateView::Ready { deployment_name, address, port, ready_at, shutdown_at },
                minutes,
                now,
            );
            &&& o.step is Idle
            &&& if now.nanos < shutdown_at.nanos {
                o.change is Keep && o.offer is Keep && o.announce is None
            } else {
                &&& o.change == Change::To(InstanceStateView::ShuttingDown { deployment_name })
                &&& o.offer is Close
                &&& o.announce is Some
            }
        }),
{
}

/// What a turn makes of an instance hangs on the time that has passed, not on when it is: if all
/// moments that the instance holds, and the turn, are moved by the same time, so is the outcome.
pub proof fn turns_hang_on_passed_time(
    pr_number: u32,
    state: InstanceStateView,
    minutes: u64,
    now: Moment,
    later: u128,
)
    requires
        now.nanos + later <= u128::MAX,
        state matches InstanceStateView::Building { started_at, .. } ==> started_at.nanos + later
            <= u128::MAX,
        state matches InstanceStateView::Starting { started_at, .. } ==> started_at.nanos + later
            <= u128::MAX,
        state matches InstanceStateView::Ready { shutdown_at, .. } ==> shutdown_at.nanos + later
            <= u128::MAX,
    ensures
        turn_outcome(
            pr_number,
            moved(state, later),
            minutes,
            Moment { nanos: (now.nanos + later) as u128 },
        ) == turn_outcome(pr_number, state, minutes, now),
{
}

/// The state with its moments that much later.
pub open spec fn moved(state: InstanceStateView, later: u128) -> InstanceStateView {
    match state {
        InstanceStateView::Building { started_at, build_url } => InstanceStateView::Building {
            started_at: Moment { nanos: (started_at.nanos + later) as u128 },
            build_url,
        },
        InstanceStateView::Starting { deployment_name, address, port, started_at } =>
            InstanceStateView::Starting {
            deployment_name,
            address,
            port,
            started_at: Moment { nanos: (started_at.nanos + later) as u128 },
        },
        InstanceStateView::Ready { deployment_name, address, port, ready_at, shutdown_at } =>
            InstanceStateView::Ready {
            deployment_name,
            address,
            port,
            ready_at,
            shutdown_at: Moment { nanos: (shutdown_at.nanos + later) as u128 },
        },
        other => other,
    }
}

/// The turn of a deploying instance asks for a deployment from the very image tag that the instance
/// holds; that of one that is shutting down asks for its end; that of one that failed forgets it;
/// and none of them announces or offers anything, whenever it comes.
pub proof fn other_turns_are_quiet(pr_number: u32, tag: Seq<char>, minutes: u64, now: Moment)
    ensures
        ({
            let o = turn_outcome(
                pr_number,
                InstanceStateView::Deploying { image_tag: tag },
                minutes,
                now,
            );
            &&& o.change is Keep
            &&& o.offer is Keep
            &&& o.announce is None
            &&& o.step matches StepView::CreateDeployment { image_tag }
            &&& image_tag == tag
        }),
        ({
            let o = turn_outcome(
                pr_number,
                InstanceStateView::ShuttingDown { deployment_name: tag },
                minutes,
                now,
            );
            o.change is Keep && o.offer is Keep && o.announce is None && o.step is DeleteResources
        }),
        ({
            let o = turn_outcome(
                pr_number,
                InstanceStateView::Failed { reason: tag },
                minutes,
                now,
            );
            o.change is Forget && o.offer is Keep && o.announce is None && o.step is Idle
        }),
{
}

/// Jenkins is asked for the status of the very build that the queue gave; where the queue gave none
/// or did not answer, nothing happens.
pub proof fn the_build_of_the_queue_is_followed(
    pr_number: u32,
    instance: PrInstanceView,
    reply: Option<Option<Seq<char>>>,
)
    ensures
        ({
            let o = event_outcome(pr_number, instance, Event::BuildUrl { reply });
            &&& o.change is Keep
            &&& o.offer is Keep
            &&& o.announce is None
            &&& match o.step {
                StepView::AskBuildStatus { build_url } => reply == Some(Some(build_url)),
                StepView::Idle => !(reply matches Some(Some(_))),
                _ => false,
            }
        }),
{
}

/// A build that succeeded is deployed under its own tag; one that failed fails its instance for the
/// same reason, which is announced; one that is not there fails it without a word; and as long as a
/// build waits or runs, or Jenkins does not answer, nothing happens.
pub proof fn builds_decide_on_their_instance(
    pr_number: u32,
    instance: PrInstanceView,
    reply: Option<BuildStatusView>,
)
    ensures
        ({
            let o = event_outcome(pr_number, instance, Event::BuildStatus { reply });
            &&& o.offer is Keep
            &&& o.step is Idle
            &&& match reply {
                Some(BuildStatusView::Success) => {
                    &&& o.change matches Change::To(s)
                    &&& s matches InstanceStateView::Deploying { image_tag }
                    &&& image_tag == build_tag(pr_number, instance.commit_hash_short)
                    &&& o.announce is Some
                },
                Some(BuildStatusView::Failed { reason }) => {
                    &&& o.change matches Change::To(s)
                    &&& s matches InstanceStateView::Failed { reason: kept }
                    &&& kept == reason
                    &&& o.announce matches Some(text)
                    &&& reason.is_suffix_of(text)
                },
                Some(BuildStatusView::NotFound) => {
                    &&& o.change matches Change::To(s)
                    &&& s matches InstanceStateView::Failed { reason }
                    &&& reason == "Build not found"@
                    &&& o.announce is None
                },
                _ => o.change is Keep && o.announce is None,
            }
        }),
{
    if let Some(BuildStatusView::Failed { reason }) = reply {
        lemma_ends_with(
            "§c[Proxy] PR #"@ + decimal(pr_number as nat) + " build failed: "@,
            reason,
        );
    }
}

/// A deployment that was created gets a service in front of it, under its own name. A deployment or
/// a service that could not be created fails the instance, and the reason stands at the end of the
/// reason of the instance and of what is announced.
pub proof fn creations_decide_on_their_instance(
    pr_number: u32,
    instance: PrInstanceView,
    name: Seq<char>,
    text: Seq<char>,
    now: Moment,
)
    ensures
        ({
            let o = event_outcome(pr_number, instance, Event::Deployment { reply: Ok(name) });
            &&& o.change is Keep
            &&& o.offer is Keep
            &&& o.announce is None
            &&& o.step matches StepView::CreateService { deployment_name }
            &&& deployment_name == name
        }),
        ({
            let o = event_outcome(pr_number, instance, Event::Deployment { reply: Err(text) });
            &&& o.offer is Keep
            &&& o.step is Idle
            &&& o.change matches Change::To(s)
            &&& s matches InstanceStateView::Failed { reason }
            &&& text.is_suffix_of(reason)
            &&& reason == "Deployment failed: "@ + text
            &&& o.announce matches Some(said)
            &&& text.is_suffix_of(said)
        }),
        ({
            let o = event_outcome(
                pr_number,
                instance,
                Event::Service { deployment_name: name, reply: Err(text), now },
            );
            &&& o.offer is Keep
            &&& o.step is Idle
            &&& o.change matches Change::To(s)
            &&& s matches InstanceStateView::Failed { reason }
            &&& text.is_suffix_of(reason)
            &&& reason == "Service creation failed: "@ + text
            &&& o.announce matches Some(said)
            &&& text.is_suffix_of(said)
        }),
{
    let n = decimal(pr_number as nat);
    lemma_ends_with("Deployment failed: "@, text);
    lemma_ends_with("Service creation failed: "@, text);
    lemma_ends_with("§c[Proxy] Failed to deploy PR #"@ + n + ": "@, text);
    lemma_ends_with("§c[Proxy] Failed to create service for PR #"@ + n + ": "@, text);
}

/// An instance whose resources were to be deleted is forgotten whether or not that worked; a
/// failure is announced with its reason at the end, and a success is not announced.
pub proof fn deletions_forget_their_instance(
    pr_number: u32,
    instance: PrInstanceView,
    reply: Option<Seq<char>>,
)
    ensures
        ({
            let o = event_outcome(pr_number, instance, Event::Deleted { reply });
            &&& o.change is Forget
            &&& o.offer is Keep
            &&& o.step is Idle
            &&& o.announce is Some <==> reply is Some
            &&& reply matches Some(text) ==> text.is_suffix_of(o.announce->0)
        }),
{
    if let Some(text) = reply {
        lemma_ends_with(
            "§c[Proxy] Failed to clean up PR #"@ + decimal(pr_number as nat) + ": "@,
            text,
        );
    }
}

/// Once a ready instance is on record, players are told its number and the name of its backend, and
/// nothing else happens.
pub proof fn ready_ones_are_announced(pr_number: u32, instance: PrInstanceView)
    ensures
        ({
            let o = event_outcome(pr_number, instance, Event::Saved);
            &&& o.change is Keep
            &&& o.offer is Keep
            &&& o.step is Idle
            &&& o.announce matches Some(text)
            &&& names_pr(text, pr_number)
            &&& exists|lead: Seq<char>, tail: Seq<char>|
                text == #[trigger] ((lead + ("/server "@ + backend_name(pr_number))) + tail)
        }),
{
    let n = decimal(pr_number as nat);
    let text = ready_message(pr_number);
    reveal_strlit("§a[Proxy] PR #");
    reveal_strlit("PR #");
    reveal_strlit(" is ready! Use §e/server pr-");
    reveal_strlit(" is ready! Use §e");
    reveal_strlit("/server ");
    reveal_strlit("pr-");
    let tail = " is ready! Use §e/server pr-"@ + n + "§a to connect."@;
    assert("PR #"@ =~= "§a[Proxy] PR #"@.subrange(10, 14));
    assert(tail[0] == ' ');
    lemma_names_pr("§a[Proxy] PR #"@, pr_number, tail);
    assert(text =~= "§a[Proxy] PR #"@ + n + tail);
    let lead = "§a[Proxy] PR #"@ + n + " is ready! Use §e"@;
    assert(" is ready! Use §e/server pr-"@ =~= " is ready! Use §e"@ + "/server "@ + "pr-"@);
    assert(text =~= (lead + ("/server "@ + backend_name(pr_number))) + "§a to connect."@);
}

/// Whatever happens to an instance, what is announced names its PR.
pub proof fn announcements_name_their_pr(pr_number: u32, instance: PrInstanceView, event: Event)
    requires
        expected(instance.state, event),
    ensures
        event_outcome(pr_number, instance, event).announce matches Some(text) ==> names_pr(
            text,
            pr_number,
        ),
{
    let n = decimal(pr_number as nat);
    reveal_strlit("PR #");
    reveal_strlit("§a[Proxy] PR #");
    reveal_strlit("§c[Proxy] PR #");
    reveal_strlit("§e[Proxy] PR #");
    reveal_strlit("§c[Proxy] Failed to deploy PR #");
    reveal_strlit("§c[Proxy] Failed to create service for PR #");
    reveal_strlit("§c[Proxy] Failed to clean up PR #");
    reveal_strlit(" build timed out after ");
    reveal_strlit(" startup timed out");
    reveal_strlit(" is shutting down (timeout expired)");
    reveal_strlit(" build completed! Deploying...");
    reveal_strlit(" build failed: ");
    reveal_strlit(": ");
    assert("PR #"@ =~= "§a[Proxy] PR #"@.subrange(10, 14));
    assert("PR #"@ =~= "§c[Proxy] PR #"@.subrange(10, 14));
    assert("PR #"@ =~= "§e[Proxy] PR #"@.subrange(10, 14));
    let deploy = "§c[Proxy] Failed to deploy PR #"@;
    let service = "§c[Proxy] Failed to create service for PR #"@;
    let clean = "§c[Proxy] Failed to clean up PR #"@;
    assert("PR #"@ =~= deploy.subrange(deploy.len() - 4, deploy.len() as int));
    assert("PR #"@ =~= service.subrange(service.len() - 4, service.len() as int));
    assert("PR #"@ =~= clean.subrange(clean.len() - 4, clean.len() as int));
    match event {
        Event::Turn { build_timeout_minutes, .. } => {
            let tail = " build timed out after "@ + decimal(build_timeout_minutes as nat)
                + " minutes"@;
            assert(tail[0] == ' ');
            lemma_names_pr("§c[Proxy] PR #"@, pr_number, tail);
            assert("§c[Proxy] PR #"@ + n + " build timed out after "@ + decimal(
                build_timeout_minutes as nat,
            ) + " minutes"@ =~= "§c[Proxy] PR #"@ + n + tail);
            lemma_names_pr("§c[Proxy] PR #"@, pr_number, " startup timed out"@);
            lemma_names_pr("§e[Proxy] PR #"@, pr_number, " is shutting down (timeout expired)"@);
        },
        Event::BuildStatus { reply: Some(BuildStatusView::Failed { reason }) } => {
            let tail = " build failed: "@ + reason;
            assert(tail[0] == ' ');
            lemma_names_pr("§c[Proxy] PR #"@, pr_number, tail);
            assert("§c[Proxy] PR #"@ + n + " build failed: "@ + reason =~= "§c[Proxy] PR #"@ + n
                + tail);
        },
        Event::BuildStatus { .. } => {
            lemma_names_pr("§a[Proxy] PR #"@, pr_number, " build completed! Deploying..."@);
        },
        Event::Deployment { reply: Err(text) } => {
            let tail = ": "@ + text;
            assert(tail[0] == ':');
            lemma_names_pr(deploy, pr_number, tail);
            assert(deploy + n + ": "@ + text =~= deploy + n + tail);
        },
        Event::Service { reply: Err(text), .. } => {
            let tail = ": "@ + text;
            assert(tail[0] == ':');
            lemma_names_pr(service, pr_number, tail);
            assert(service + n + ": "@ + text =~= service + n + tail);
        },
        Event::Deleted { reply: Some(text) } => {
            let tail = ": "@ + text;
            assert(tail[0] == ':');
            lemma_names_pr(clean, pr_number, tail);
            assert(clean + n + ": "@ + text =~= clean + n + tail);
        },
        Event::Saved => {
            ready_ones_are_announced(pr_number, instance);
        },
        _ => {},
    }
}

/// A change of state gives the instance that state and leaves the rest of it; a PR without an
/// instance gets none.
pub proof fn state_is_what_was_set(m: Instances, pr_number: u32, state: InstanceStateView)
    ensures
        with_state(m, pr_number, state).dom() =~= m.dom(),
        m.contains_key(pr_number) ==> {
            let i = with_state(m, pr_number, state)[pr_number];
            &&& i.state == state
            &&& i.pr_number == m[pr_number].pr_number
            &&& i.commit_hash == m[pr_number].commit_hash
            &&& i.commit_hash_short == m[pr_number].commit_hash_short
        },
        !m.contains_key(pr_number) ==> with_state(m, pr_number, state) == m,
{
}

/// A PR is offered at the address and the port that it was given, and its description names it.
pub proof fn backends_of_prs(pr_number: u32, address: Seq<char>, port: u16)
    ensures
        pr_backend(pr_number, address, port).address == address,
        pr_backend(pr_number, address, port).port == port,
        pr_backend(pr_number, address, port).description matches Some(text) && text == "PR #"@
            + decimal(pr_number as nat),
{
}

/// The answer to what a turn asks for comes to what it comes to by itself, whichever of the two ways
/// leads to it.
pub proof fn answers_come_to_the_same(
    pr_number: u32,
    instance: PrInstanceView,
    step: StepView,
    limits: Limits,
    answers: Answers,
)
    ensures
        ({
            let o = answer_outcome(pr_number, instance, step, limits, answers);
            match step {
                StepView::AskBuildUrl { .. } => {
                    &&& o == build_url_outcome(answers.build_url)
                    &&& o == event_outcome(
                        pr_number,
                        instance,
                        Event::BuildUrl { reply: answers.build_url },
                    )
                },
                StepView::AskBuildStatus { .. } => {
                    &&& o == build_status_outcome(
                        pr_number,
                        instance.commit_hash_short,
                        answers.build_status,
                    )
                    &&& o == event_outcome(
                        pr_number,
                        instance,
                        Event::BuildStatus { reply: answers.build_status },
                    )
                },
                StepView::CreateDeployment { .. } => {
                    &&& o == deployment_outcome(pr_number, answers.deployment)
                    &&& o == event_outcome(
                        pr_number,
                        instance,
                        Event::Deployment { reply: answers.deployment },
                    )
                },
                StepView::CreateService { deployment_name } => {
                    &&& o == service_outcome(
                        pr_number,
                        deployment_name,
                        answers.service,
                        answers.service_at,
                    )
                    &&& o == event_outcome(
                        pr_number,
                        instance,
                        Event::Service {
                            deployment_name,
                            reply: answers.service,
                            now: answers.service_at,
                        },
                    )
                },
                StepView::AskReadiness { deployment_name, address, port } => {
                    &&& o == readiness_outcome(
                        pr_number,
                        instance.commit_hash,
                        instance.commit_hash_short,
                        deployment_name,
                        address,
                        port,
                        answers.readiness,
                        limits.instance_timeout_minutes,
                        answers.readiness_at,
                    )
                    &&& instance.state matches InstanceStateView::Starting {
                        deployment_name: d,
                        address: a,
                        port: p,
                        ..
                    } ==> (d == deployment_name && a == address && p == port ==> o
                        == event_outcome(
                        pr_number,
                        instance,
                        Event::Readiness {
                            reply: answers.readiness,
                            timeout_minutes: limits.instance_timeout_minutes,
                            now: answers.readiness_at,
                        },
                    ))
                },
                StepView::SaveBuild { .. } => {
                    &&& o == saved_outcome(pr_number)
                    &&& o == event_outcome(pr_number, instance, Event::Saved)
                },
                StepView::DeleteResources => {
                    &&& o == deleted_outcome(pr_number, answers.deletion)
                    &&& o == event_outcome(
                        pr_number,
                        instance,
                        Event::Deleted { reply: answers.deletion },
                    )
                },
                StepView::Idle => {
                    &&& o.change is Keep
                    &&& o.offer is Keep
                    &&& o.announce is None
                    &&& o.step is Idle
                },
            }
        }),
{
}

/// A turn begins as the state of its instance has it, from the start that the state holds.
pub proof fn turns_begin_by_state(
    pr_number: u32,
    instance: PrInstanceView,
    build_timeout_minutes: u64,
    now: Moment,
)
    ensures
        ({
            let o = turn_outcome(pr_number, instance.state, build_timeout_minutes, now);
            &&& o == event_outcome(
                pr_number,
                instance,
                Event::Turn { build_timeout_minutes, now },
            )
            &&& instance.state matches InstanceStateView::Building { started_at, build_url } ==> o
                == building_outcome(pr_number, started_at, build_url, build_timeout_minutes, now)
            &&& instance.state matches InstanceStateView::Starting {
                deployment_name,
                address,
                port,
                started_at,
            } ==> o == starting_outcome(
                pr_number,
                deployment_name,
                address,
                port,
                started_at,
                now,
            )
            &&& instance.state matches InstanceStateView::Ready {
                deployment_name,
                shutdown_at,
                ..
            } ==> o == ready_outcome(pr_number, deployment_name, shutdown_at, now)
        }),
{
}

/// Minutes can be counted from a moment exactly where their seconds, and the nanoseconds of the
/// moment that is that much later, can be told.
pub proof fn minutes_that_can_be_counted(timeout_minutes: u64, now: Moment)
    ensures
        timeout_fits(timeout_minutes, now) <==> timeout_minutes * 60 <= 0xffff_ffff_ffff_ffff
            && now.nanos + timeout_minutes * 60_000_000_000
            <= 0xffff_ffff_ffff_ffff_ffff_ffff_ffff_ffff,
{
}

/// Instances have a turn every ten seconds, a deployment has thirty turns to become ready, and a
/// second has a thousand million nanoseconds.
pub proof fn turns_come_at_their_time()
    ensures
        TURN_SECS == 10,
        STARTUP_TIMEOUT_SECS == 30 * TURN_SECS,
        NANOS_PER_SECOND == 1_000 * 1_000 * 1_000,
{
}

/// What is announced tells what became of the instance, in one wording for each of the ways that an
/// instance can go, and nothing is announced that did not happen.
pub proof fn announcements_tell_what_happened(
    pr_number: u32,
    instance: PrInstanceView,
    event: Event,
    text: Seq<char>,
)
    requires
        expected(instance.state, event),
        event_outcome(pr_number, instance, event).announce == Some(text),
    ensures
        ({
            let n = decimal(pr_number as nat);
            match event_outcome(pr_number, instance, event).change {
                Change::To(InstanceStateView::Deploying { .. }) => text == "§a[Proxy] PR #"@ + n
                    + " build completed! Deploying..."@,
                Change::To(InstanceStateView::ShuttingDown { .. }) => if instance.state is Ready {
                    text == "§e[Proxy] PR #"@ + n + " is shutting down (timeout expired)"@
                } else {
                    instance.state is Starting && text == "§c[Proxy] PR #"@ + n
                        + " startup timed out"@
                },
                Change::To(InstanceStateView::Failed { reason }) => match event {
                    Event::Turn { build_timeout_minutes, .. } => text == "§c[Proxy] PR #"@ + n
                        + " build timed out after "@ + decimal(build_timeout_minutes as nat)
                        + " minutes"@,
                    Event::BuildStatus { .. } => text == "§c[Proxy] PR #"@ + n + " build failed: "@
                        + reason,
                    Event::Deployment { reply: Err(why) } => text
                        == "§c[Proxy] Failed to deploy PR #"@ + n + ": "@ + why,
                    Event::Service { reply: Err(why), .. } => text
                        == "§c[Proxy] Failed to create service for PR #"@ + n + ": "@ + why,
                    _ => false,
                },
                Change::Forget => event matches Event::Deleted { reply: Some(why) } && text
                    == "§c[Proxy] Failed to clean up PR #"@ + n + ": "@ + why,
                Change::Keep => instance.state is Ready && text == "§a[Proxy] PR #"@ + n
                    + " is ready! Use §e/server pr-"@ + n + "§a to connect."@,
                Change::To(_) => false,
            }
        }),
{
}

/// An instance that is forgotten is gone, whatever its state was; one that goes to a state is in that
/// state, where it was there; and a change to one instance is none to any other.
pub proof fn changes_are_made_to_their_instance(
    m: Instances,
    pr_number: u32,
    state: InstanceStateView,
    other: u32,
)
    ensures
        changed(m, pr_number, Change::Keep) == m,
        !changed(m, pr_number, Change::Forget).contains_key(pr_number),
        m.contains_key(pr_number) ==> {
            &&& changed(m, pr_number, Change::To(state)).contains_key(pr_number)
            &&& changed(m, pr_number, Change::To(state))[pr_number] == (PrInstanceView {
                state,
                ..m[pr_number]
            })
        },
        !m.contains_key(pr_number) ==> changed(m, pr_number, Change::To(state)) == m,
        other != pr_number ==> {
            &&& changed(m, pr_number, Change::Forget).contains_key(other) == m.contains_key(other)
            &&& changed(m, pr_number, Change::To(state)).contains_key(other) == m.contains_key(
                other,
            )
            &&& m.contains_key(other) ==> changed(m, pr_number, Change::Forget)[other] == m[other]
            &&& m.contains_key(other) ==> changed(m, pr_number, Change::To(state))[other]
                == m[other]
        },
{
}

} // verus!
