//! How the build of a PR is started, and for which commit.
use crate::github::short_hash;
use crate::jenkins::BuildStatusView;
use crate::k8s::instance::{
    backend_name, build_tag, image_path, InstanceStateView, Moment, PrInstanceView,
};
use crate::k8s::lifecycle::{changed, event_outcome, turn_outcome, Event, StepView};
use crate::k8s::manifest::deployment_for;
use crate::k8s::Instances;
use crate::laws::lifecycle::{lemma_names_pr, names_pr};
use crate::proxy::registry::RegistryView;
use crate::proxy::{
    queued_instance, queued_message, start_obstacle, starting_message, StartError,
};
use crate::text::decimal;
use vstd::prelude::*;

verus! {

/// A PR whose build was queued has an instance with the two hashes that were handed over, each in
/// its own place, under its own number; it is building since that moment, and its place in the
/// queue is the one that Jenkins gave, for which its next turn asks.
pub proof fn queued_build_is_taken_up(
    pr_number: u32,
    commit_hash: Seq<char>,
    commit_hash_short: Seq<char>,
    queue_url: Seq<char>,
    now: Moment,
    minutes: u64,
)
    ensures
        ({
            let i = queued_instance(pr_number, commit_hash, commit_hash_short, queue_url, now);
            &&& i.pr_number == pr_number
            &&& i.commit_hash == commit_hash
            &&& i.commit_hash_short == commit_hash_short
            &&& i.state matches InstanceStateView::Building { started_at, build_url }
            &&& started_at == now
            &&& build_url == Some(queue_url)
            &&& turn_outcome(pr_number, i.state, minutes, now).step == (StepView::AskBuildUrl {
                queue_url,
            })
        }),
{
}

/// The image that is deployed after the build of a PR succeeded is the one that the build was
/// triggered for: its tag is that of the short hash that was handed over with the build, it stands
/// at the end of the path of the image, and the next turn of the instance asks for it.
pub proof fn built_commit_is_deployed(
    m: Instances,
    pr_number: u32,
    commit_hash: Seq<char>,
    commit_hash_short: Seq<char>,
    queue_url: Seq<char>,
    queued_at: Moment,
    config: crate::config::KubernetesConfig,
    minutes: u64,
    now: Moment,
)
    ensures
        ({
            let m1 = m.insert(
                pr_number,
                queued_instance(pr_number, commit_hash, commit_hash_short, queue_url, queued_at),
            );
            let built = event_outcome(
                pr_number,
                m1[pr_number],
                Event::BuildStatus { reply: Some(BuildStatusView::Success) },
            );
            let m2 = changed(m1, pr_number, built.change);
            let turn = turn_outcome(pr_number, m2[pr_number].state, minutes, now);
            &&& m2[pr_number].commit_hash == commit_hash
            &&& m2[pr_number].commit_hash_short == commit_hash_short
            &&& turn.step matches StepView::CreateDeployment { image_tag }
            &&& image_tag == "pr-"@ + decimal(pr_number as nat) + "-"@ + commit_hash_short
            &&& commit_hash_short.is_suffix_of(image_tag)
            &&& image_tag.is_suffix_of(deployment_for(config, pr_number, image_tag).image)
        }),
{
    let tag = "pr-"@ + decimal(pr_number as nat) + "-"@ + commit_hash_short;
    crate::laws::lifecycle::lemma_ends_with(
        "pr-"@ + decimal(pr_number as nat) + "-"@,
        commit_hash_short,
    );
    crate::laws::lifecycle::lemma_ends_with(
        config.registry@ + "/"@ + config.image_name@ + ":"@,
        tag,
    );
}

/// The path of an image begins with where it is kept and ends with its tag, and its name stands
/// between the two.
pub proof fn image_path_is_in_order(registry: Seq<char>, image_name: Seq<char>, tag: Seq<char>)
    ensures
        ({
            let path = image_path(registry, image_name, tag);
            let at = registry.len() as int + 1;
            &&& (registry + "/"@).is_prefix_of(path)
            &&& (":"@ + tag).is_suffix_of(path)
            &&& path.len() == registry.len() + 1 + image_name.len() + 1 + tag.len()
            &&& path.subrange(at, at + image_name.len()) == image_name
        }),
{
    reveal_strlit("/");
    reveal_strlit(":");
    let path = image_path(registry, image_name, tag);
    let at = registry.len() as int + 1;
    assert(registry + "/"@ =~= path.subrange(0, at));
    assert(":"@ + tag =~= path.subrange(path.len() - (tag.len() + 1), path.len() as int));
    assert(path.subrange(at, at + image_name.len()) =~= image_name);
}

/// The tag of a build holds the number of its PR and then the hash, and the name of the backend of
/// the PR is what it begins with.
pub proof fn tag_holds_number_and_hash(pr_number: u32, hash: Seq<char>)
    ensures
        build_tag(pr_number, hash) == backend_name(pr_number) + "-"@ + hash,
{
}

/// The short form of a hash is its first seven characters, and a hash of no more than seven is its
/// own short form; so two hashes that begin alike have one short form.
pub proof fn short_hashes(a: Seq<char>, b: Seq<char>)
    ensures
        short_hash(a).is_prefix_of(a),
        a.len() >= 7 ==> short_hash(a).len() == 7,
        a.len() <= 7 ==> short_hash(a) == a,
        a.len() >= 7 && b.len() >= 7 && a.take(7) == b.take(7) ==> short_hash(a) == short_hash(b),
        short_hash(short_hash(a)) == short_hash(a),
{
    assert(short_hash(a) =~= a.subrange(0, short_hash(a).len() as int));
    if a.len() >= 7 {
        assert(short_hash(a) =~= a.take(7));
    }
    if b.len() >= 7 {
        assert(short_hash(b) =~= b.take(7));
    }
}

/// What stands in the way of a build, in this order: Jenkins or Kubernetes is not configured, the
/// PR has an instance, or a backend has its name. What other PRs have stands in no way.
pub proof fn obstacles_come_in_order(
    has_jenkins: bool,
    instances: Option<Instances>,
    backends: RegistryView,
    pr_number: u32,
    other: u32,
    instance: PrInstanceView,
)
    ensures
        ({
            let e = start_obstacle(has_jenkins, instances, backends, pr_number);
            &&& e == Some(StartError::NoJenkins) <==> !has_jenkins
            &&& e == Some(StartError::NoKubernetes) <==> has_jenkins && instances is None
            &&& e matches Some(StartError::HasInstance { pr_number: n }) ==> n == pr_number
                && (instances matches Some(m) && m.contains_key(pr_number))
            &&& e matches Some(StartError::HasBackend { pr_number: n }) ==> n == pr_number && (
            instances matches Some(m) && !m.contains_key(pr_number)) && backends.find(
                backend_name(pr_number),
            ) is Some
            &&& other != pr_number && instances is Some ==> start_obstacle(
                has_jenkins,
                Some(instances->0.insert(other, instance)),
                backends,
                pr_number,
            ) == e
        }),
{
}

/// The messages on the start of a build, and on what stands in its way, name the PR.
pub proof fn start_messages_name_the_pr(pr_number: u32)
    ensures
        names_pr(starting_message(pr_number), pr_number),
        names_pr(queued_message(pr_number), pr_number),
        names_pr((StartError::HasInstance { pr_number }).text(), pr_number),
        names_pr((StartError::HasBackend { pr_number }).text(), pr_number),
        starting_message(pr_number) != queued_message(pr_number),
        starting_message(pr_number) == "§e[Proxy] Starting build for PR #"@ + decimal(
            pr_number as nat,
        ) + "..."@,
        queued_message(pr_number) == "§a[Proxy] PR #"@ + decimal(pr_number as nat)
            + " build queued. You will be notified when it's ready."@,
        StartError::NoJenkins.text() == "Jenkins not configured"@,
        StartError::NoKubernetes.text() == "Kubernetes not configured"@,
        (StartError::HasInstance { pr_number }).text() == "PR #"@ + decimal(pr_number as nat)
            + " is already being built or running"@,
        (StartError::HasBackend { pr_number }).text() == "PR #"@ + decimal(pr_number as nat)
            + " instance already exists"@,
        (StartError::HasInstance { pr_number }).text() != (StartError::HasBackend {
            pr_number,
        }).text(),
{
    reveal_strlit("PR #");
    reveal_strlit("§e[Proxy] Starting build for PR #");
    reveal_strlit("§a[Proxy] PR #");
    reveal_strlit("...");
    reveal_strlit(" build queued. You will be notified when it's ready.");
    reveal_strlit(" is already being built or running");
    reveal_strlit(" instance already exists");
    let starting = "§e[Proxy] Starting build for PR #"@;
    assert("PR #"@ =~= starting.subrange(starting.len() - 4, starting.len() as int));
    assert("PR #"@ =~= "§a[Proxy] PR #"@.subrange(10, 14));
    assert("PR #"@ =~= "PR #"@.subrange(0, 4));
    lemma_names_pr(starting, pr_number, "..."@);
    lemma_names_pr(
        "§a[Proxy] PR #"@,
        pr_number,
        " build queued. You will be notified when it's ready."@,
    );
    lemma_names_pr("PR #"@, pr_number, " is already being built or running"@);
    lemma_names_pr("PR #"@, pr_number, " instance already exists"@);
    assert(starting_message(pr_number)[1] == 'e');
    assert(queued_message(pr_number)[1] == 'a');
    let a = StartError::HasInstance { pr_number }.text();
    let b = StartError::HasBackend { pr_number }.text();
    assert(a.len() - b.len() == " is already being built or running"@.len()
        - " instance already exists"@.len());
}

} // verus!
