//! A turn of an instance from its start to its end, and a round of turns over all instances.
use crate::jenkins::BuildStatusView;
use crate::k8s::instance::{InstanceStateView, Moment, PrInstance, PrInstanceView};
use crate::k8s::lifecycle::{
    build_status_outcome, build_url_outcome, changed, deleted_outcome, deployment_outcome,
    event_outcome, events_keep_offers, offered, only, readiness_outcome, ready_ones_are_offered,
    saved_outcome, service_outcome, turn_outcome, Event, Outcome, StepView,
};
use crate::k8s::{is_snapshot, Instances};
use crate::proxy::registry::RegistryView;
use vstd::prelude::*;

verus! {

/// What the clock, Jenkins and the cluster answer in a turn, as far as they are asked.
pub struct Answers {
    /// When the turn begins.
    pub now: Moment,
    pub build_url: Option<Option<Seq<char>>>,
    pub build_status: Option<BuildStatusView>,
    pub deployment: Result<Seq<char>, Seq<char>>,
    pub service: Result<(Seq<char>, u16), Seq<char>>,
    /// When the service was there.
    pub service_at: Moment,
    pub readiness: Option<bool>,
    /// When the deployment was found ready.
    pub readiness_at: Moment,
    pub deletion: Option<Seq<char>>,
}

/// The settings that a turn goes by.
pub struct Limits {
    pub build_timeout_minutes: u64,
    pub instance_timeout_minutes: u64,
}

/// What the answer to a step comes to.
pub open spec fn answer_outcome(
    pr_number: u32,
    instance: PrInstanceView,
    step: StepView,
    limits: Limits,
    answers: Answers,
) -> Outcome {
    match step {
        StepView::AskBuildUrl { .. } => build_url_outcome(answers.build_url),
        StepView::AskBuildStatus { .. } => build_status_outcome(
            pr_number,
            instance.commit_hash_short,
            answers.build_status,
        ),
        StepView::CreateDeployment { .. } => deployment_outcome(pr_number, answers.deployment),
        StepView::CreateService { deployment_name } => service_outcome(
            pr_number,
            deployment_name,
            answers.service,
            answers.service_at,
        ),
        StepView::AskReadiness { deployment_name, address, port } => readiness_outcome(
            pr_number,
            instance.commit_hash,
            instance.commit_hash_short,
            deployment_name,
            address,
            port,
            answers.readiness,
            limits.instance_timeout_minutes,
            answers.readiness_at,
        ),
        StepView::SaveBuild { .. } => saved_outcome(pr_number),
        StepView::DeleteResources => deleted_outcome(pr_number, answers.deletion),
        StepView::Idle => only(StepView::Idle),
    }
}

/// No more than this many answers follow a step in its turn.
pub open spec fn answers_left(step: StepView) -> nat {
    match step {
        StepView::AskBuildUrl { .. } => 2,
        StepView::AskBuildStatus { .. } => 1,
        StepView::CreateDeployment { .. } => 2,
        StepView::CreateService { .. } => 1,
        StepView::AskReadiness { .. } => 2,
        StepView::SaveBuild { .. } => 1,
        StepView::DeleteResources => 1,
        StepView::Idle => 0,
    }
}

/// What a turn has come to.
pub struct TurnEnd {
    pub instances: Instances,
    pub backends: RegistryView,
    /// How many times the instance went to another state or was forgotten.
    pub moves: nat,
}

/// A turn from this part of it to its end: what the part says is done, and as long as it asks for
/// something, the answer makes the next part.
pub open spec fn turn_from(
    before: TurnEnd,
    pr_number: u32,
    instance: PrInstanceView,
    part: Outcome,
    limits: Limits,
    answers: Answers,
) -> TurnEnd
    decreases answers_left(part.step),
{
    let after = TurnEnd {
        instances: changed(before.instances, pr_number, part.change),
        backends: offered(before.backends, pr_number, part.offer),
        moves: if part.change is Keep {
            before.moves
        } else {
            before.moves + 1
        },
    };
    if part.step is Idle {
        after
    } else {
        turn_from(
            after,
            pr_number,
            instance,
            answer_outcome(pr_number, instance, part.step, limits, answers),
            limits,
            answers,
        )
    }
}

/// The turn of an instance, in the state in which it was found.
pub open spec fn whole_turn(
    m: Instances,
    r: RegistryView,
    pr_number: u32,
    instance: PrInstanceView,
    limits: Limits,
    answers: Answers,
) -> TurnEnd {
    turn_from(
        TurnEnd { instances: m, backends: r, moves: 0 },
        pr_number,
        instance,
        turn_outcome(pr_number, instance.state, limits.build_timeout_minutes, answers.now),
        limits,
        answers,
    )
}

/// Whether a turn may take an instance from the one state to the other; no state is that of an
/// instance that was forgotten. A deploying instance does not stay so, and neither does one that
/// failed or is shutting down.
pub open spec fn turn_leads(from: InstanceStateView, to: Option<InstanceStateView>) -> bool {
    match from {
        InstanceStateView::Building { .. } => to == Some(from) || (to matches Some(s) && (
        s is Deploying || s is Failed)),
        InstanceStateView::Deploying { .. } => to matches Some(s) && (s is Starting || s is Failed),
        InstanceStateView::Starting { .. } => to == Some(from) || (to matches Some(s) && (
        s is Ready || s is ShuttingDown)),
        InstanceStateView::Ready { .. } => to == Some(from) || (to matches Some(s)
            && s is ShuttingDown),
        InstanceStateView::ShuttingDown { .. } => to is None,
        InstanceStateView::Failed { .. } => to is None,
    }
}

/// The state of the instance of a PR, where it has one.
pub open spec fn state_of(m: Instances, pr_number: u32) -> Option<InstanceStateView> {
    if m.contains_key(pr_number) {
        Some(m[pr_number].state)
    } else {
        None
    }
}

/// Whether an instance is the same in both, but for its state.
pub open spec fn same_commit(a: PrInstanceView, b: PrInstanceView) -> bool {
    &&& a.pr_number == b.pr_number
    &&& a.commit_hash == b.commit_hash
    &&& a.commit_hash_short == b.commit_hash_short
}

/// Whether both have an instance for a PR, and the same one, or neither has.
pub open spec fn same_instance(m: Instances, n: Instances, pr_number: u32) -> bool {
    &&& m.contains_key(pr_number) == n.contains_key(pr_number)
    &&& m.contains_key(pr_number) ==> m[pr_number] == n[pr_number]
}

/// A turn moves its instance at most once, and only as [`turn_leads`] has it: a building instance
/// stays so, is deployed or fails; a deploying one starts or fails; a starting one stays so,
/// becomes ready or is shut down; a ready one stays so or is shut down; one that is shutting down
/// or failed is forgotten. Its number and its commit stay, and so does every other instance.
pub proof fn turn_moves_at_most_once(
    m: Instances,
    r: RegistryView,
    pr_number: u32,
    limits: Limits,
    answers: Answers,
)
    requires
        m.contains_key(pr_number),
    ensures
        ({
            let end = whole_turn(m, r, pr_number, m[pr_number], limits, answers);
            &&& end.moves <= 1
            &&& turn_leads(m[pr_number].state, state_of(end.instances, pr_number))
            &&& end.instances.contains_key(pr_number) ==> same_commit(
                m[pr_number],
                end.instances[pr_number],
            )
            &&& forall|other: u32|
                other != pr_number ==> #[trigger] same_instance(m, end.instances, other)
            &&& end.backends.fixed == r.fixed
        }),
{
    reveal_with_fuel(turn_from, 4);
}

/// Through a whole turn, exactly the PRs with a ready instance stay offered.
pub proof fn turn_keeps_offers(
    m: Instances,
    r: RegistryView,
    pr_number: u32,
    limits: Limits,
    answers: Answers,
)
    requires
        m.contains_key(pr_number),
        ready_ones_are_offered(m, r),
    ensures
        ({
            let end = whole_turn(m, r, pr_number, m[pr_number], limits, answers);
            ready_ones_are_offered(end.instances, end.backends)
        }),
{
    reveal_with_fuel(turn_from, 4);
    let instance = m[pr_number];
    let begin = Event::Turn {
        build_timeout_minutes: limits.build_timeout_minutes,
        now: answers.now,
    };
    let first = event_outcome(pr_number, instance, begin);
    events_keep_offers(m, r, pr_number, begin);
    match first.step {
        StepView::AskBuildUrl { .. } => {
            events_keep_offers(m, r, pr_number, Event::BuildStatus { reply: answers.build_status });
        },
        StepView::CreateDeployment { .. } => {
            events_keep_offers(m, r, pr_number, Event::Deployment { reply: answers.deployment });
            if let Ok(deployment_name) = answers.deployment {
                events_keep_offers(
                    m,
                    r,
                    pr_number,
                    Event::Service {
                        deployment_name,
                        reply: answers.service,
                        now: answers.service_at,
                    },
                );
            }
        },
        StepView::AskReadiness { .. } => {
            events_keep_offers(
                m,
                r,
                pr_number,
                Event::Readiness {
                    reply: answers.readiness,
                    timeout_minutes: limits.instance_timeout_minutes,
                    now: answers.readiness_at,
                },
            );
        },
        StepView::DeleteResources => {
            events_keep_offers(m, r, pr_number, Event::Deleted { reply: answers.deletion });
        },
        _ => {},
    }
}

/// A round: a turn for each instance of a row, one after the other.
pub open spec fn whole_round(
    m: Instances,
    r: RegistryView,
    row: Seq<(u32, PrInstance)>,
    limits: Limits,
    answers: Seq<Answers>,
) -> (Instances, RegistryView)
    decreases row.len(),
{
    if row.len() == 0 {
        (m, r)
    } else {
        let before = whole_round(m, r, row.drop_last(), limits, answers);
        let end = whole_turn(
            before.0,
            before.1,
            row.last().0,
            row.last().1@,
            limits,
            answers[row.len() - 1],
        );
        (end.instances, end.backends)
    }
}

/// Whether the row holds instances that are there, each once.
spec fn is_part(row: Seq<(u32, PrInstance)>, m: Instances) -> bool {
    &&& forall|i: int|
        0 <= i < row.len() ==> m.contains_key((#[trigger] row[i]).0) && m[row[i].0] == row[i].1@
    &&& forall|i: int, j: int|
        0 <= i < j < row.len() ==> (#[trigger] row[i]).0 != (#[trigger] row[j]).0
}

/// Whether the row holds an instance of a PR.
spec fn in_row(row: Seq<(u32, PrInstance)>, pr_number: u32) -> bool {
    exists|i: int| 0 <= i < row.len() && (#[trigger] row[i]).0 == pr_number
}

/// What a turn may do to the instance of a PR.
pub open spec fn turned(m: Instances, n: Instances, pr_number: u32) -> bool {
    &&& turn_leads(m[pr_number].state, state_of(n, pr_number))
    &&& n.contains_key(pr_number) ==> same_commit(m[pr_number], n[pr_number])
}

/// What a round over the row may do to the instance of a PR.
spec fn turned_in_row(
    m: Instances,
    n: Instances,
    row: Seq<(u32, PrInstance)>,
    pr_number: u32,
) -> bool {
    if in_row(row, pr_number) {
        turned(m, n, pr_number)
    } else {
        same_instance(m, n, pr_number)
    }
}

proof fn lemma_round(
    m: Instances,
    r: RegistryView,
    row: Seq<(u32, PrInstance)>,
    limits: Limits,
    answers: Seq<Answers>,
)
    requires
        is_part(row, m),
    ensures
        ({
            let end = whole_round(m, r, row, limits, answers);
            &&& forall|pr: u32| #[trigger] turned_in_row(m, end.0, row, pr)
            &&& ready_ones_are_offered(m, r) ==> ready_ones_are_offered(end.0, end.1)
            &&& end.1.fixed == r.fixed
        }),
    decreases row.len(),
{
    let end = whole_round(m, r, row, limits, answers);
    if row.len() > 0 {
        let front = row.drop_last();
        let before = whole_round(m, r, front, limits, answers);
        let own = row.last().0;
        assert forall|i: int| 0 <= i < front.len() implies m.contains_key(
            (#[trigger] front[i]).0,
        ) && m[front[i].0] == front[i].1@ by {
            assert(front[i] == row[i]);
        }
        lemma_round(m, r, front, limits, answers);
        assert(!in_row(front, own)) by {
            if in_row(front, own) {
                let i = choose|i: int| 0 <= i < front.len() && (#[trigger] front[i]).0 == own;
                assert(row[i].0 != row[row.len() - 1].0);
            }
        }
        assert(turned_in_row(m, before.0, front, own));
        assert(row[row.len() - 1].0 == own);
        let a = answers[row.len() - 1];
        turn_moves_at_most_once(before.0, before.1, own, limits, a);
        if ready_ones_are_offered(m, r) {
            turn_keeps_offers(before.0, before.1, own, limits, a);
        }
        assert forall|pr: u32| #[trigger] turned_in_row(m, end.0, row, pr) by {
            assert(turned_in_row(m, before.0, front, pr));
            if pr == own {
                assert(in_row(row, pr));
            } else {
                assert(same_instance(before.0, end.0, pr));
                if in_row(row, pr) {
                    let i = choose|i: int| 0 <= i < row.len() && (#[trigger] row[i]).0 == pr;
                    assert(front[i].0 == pr);
                    assert(in_row(front, pr));
                } else {
                    assert(!in_row(front, pr)) by {
                        if in_row(front, pr) {
                            let i = choose|i: int|
                                0 <= i < front.len() && (#[trigger] front[i]).0 == pr;
                            assert(row[i].0 == pr);
                        }
                    }
                }
            }
        }
    }
}

/// A round over all instances takes each of them along as [`turn_leads`] has it, whatever Jenkins
/// and the cluster answer, as long as nothing else changes the instances: numbers and commits stay,
/// no instance is added, exactly the PRs with a ready instance stay offered, and no backend from
/// the settings file changes.
pub proof fn round_leads_every_instance(
    m: Instances,
    r: RegistryView,
    row: Seq<(u32, PrInstance)>,
    limits: Limits,
    answers: Seq<Answers>,
    pr_number: u32,
)
    requires
        is_snapshot(row, m),
        answers.len() == row.len(),
    ensures
        ({
            let (n, s) = whole_round(m, r, row, limits, answers);
            &&& m.contains_key(pr_number) ==> turned(m, n, pr_number)
            &&& !m.contains_key(pr_number) ==> !n.contains_key(pr_number)
            &&& ready_ones_are_offered(m, r) ==> ready_ones_are_offered(n, s)
            &&& s.fixed == r.fixed
        }),
{
    lemma_round(m, r, row, limits, answers);
    assert(turned_in_row(m, whole_round(m, r, row, limits, answers).0, row, pr_number));
    if m.contains_key(pr_number) {
        let i = choose|i: int| 0 <= i < row.len() && (#[trigger] row[i]).0 == pr_number;
        assert(row[i].0 == pr_number);
        assert(in_row(row, pr_number));
    } else {
        assert(!in_row(row, pr_number)) by {
            if in_row(row, pr_number) {
                let i = choose|i: int| 0 <= i < row.len() && (#[trigger] row[i]).0 == pr_number;
                assert(m.contains_key(row[i].0));
            }
        }
    }
}

} // verus!
