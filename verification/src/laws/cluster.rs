//! What the cluster is asked for a PR, and what is made of its answers.
use crate::config::KubernetesConfig;
use crate::db::models::{BindView, PrBuild, DELETE};
use crate::k8s::instance::{
    backend_name, resource_name, status_word, InstanceStateView, Moment,
};
use crate::k8s::lifecycle::timeout_fits;
use crate::k8s::manifest::{
    after_deletion, deployment_after_create, deployment_after_delete, deployment_for,
    node_port_number, service_after_create, service_answer, service_for, ClusterError, DeletionView,
    DeploymentStepView, DeploymentView, ServiceStepView, ServiceView,
};
use crate::k8s::recovery::{
    after_readiness, after_service, backends_after_service, found_instance, forget_statement,
    instances_after_service, recorded_pr, service_in, RecoveryStepView, RecoveryView,
};
use crate::k8s::{is_snapshot, Instances};
use crate::laws::forwarding::kind_of;
use crate::proxy::registry::RegistryView;
use crate::text::decimal;
use vstd::prelude::*;

verus! {

/// Everything that a PR has is named after its number: the backend `pr-` and the number, the
/// deployment and the service `steel-` and the name of the backend.
pub proof fn names_of_a_pr(pr_number: u32)
    ensures
        backend_name(pr_number) == "pr-"@ + decimal(pr_number as nat),
        resource_name(pr_number) == "steel-"@ + backend_name(pr_number),
{
    reveal_strlit("steel-pr-");
    reveal_strlit("steel-");
    reveal_strlit("pr-");
    assert("steel-pr-"@ =~= "steel-"@ + "pr-"@);
    assert(resource_name(pr_number) =~= "steel-"@ + backend_name(pr_number));
}

/// The word for a state hangs on its kind alone, and two kinds of state have two words.
pub proof fn words_tell_kinds_apart(a: InstanceStateView, b: InstanceStateView)
    ensures
        status_word(a) == status_word(b) <==> kind_of(a) == kind_of(b),
{
    reveal_strlit("building");
    reveal_strlit("deploying");
    reveal_strlit("starting");
    reveal_strlit("ready");
    reveal_strlit("shutting down");
    reveal_strlit("failed");
    assert("building"@[0] == 'b' && "deploying"@[0] == 'd' && "starting"@[1] == 't');
    assert("ready"@[0] == 'r' && "shutting down"@[1] == 'h' && "failed"@[0] == 'f');
    assert("starting"@[0] == 's' && "shutting down"@[0] == 's');
}

/// The deployment of a PR is one server, in the namespace and within the limits of the settings,
/// from the image of the tag, on the port on which servers take players; only its image hangs on
/// the tag.
pub proof fn deployment_is_as_set(
    config: KubernetesConfig,
    pr_number: u32,
    tag: Seq<char>,
    other: Seq<char>,
)
    ensures
        ({
            let d = deployment_for(config, pr_number, tag);
            &&& d.replicas == 1
            &&& d.namespace == config.namespace@
            &&& d.memory_limit == config.resources.memory@
            &&& d.cpu_limit == config.resources.cpu@
            &&& d.image == config.registry@ + "/"@ + config.image_name@ + ":"@ + tag
            &&& d.container_port == 25565
            &&& d.probe_port == 25565
            &&& d.labels.contains(("pr"@, decimal(pr_number as nat)))
            &&& (DeploymentView {
                image: deployment_for(config, pr_number, other).image,
                ..d
            }) == deployment_for(config, pr_number, other)
        }),
{
    let d = deployment_for(config, pr_number, tag);
    assert(d.labels[1] == ("pr"@, decimal(pr_number as nat)));
}

/// The service of a PR is reached from outside the cluster, in the namespace of the settings, on the
/// port on which servers take players.
pub proof fn service_is_as_set(config: KubernetesConfig, pr_number: u32)
    ensures
        ({
            let s = service_for(config, pr_number);
            &&& s.namespace == config.namespace@
            &&& s.port == 25565
            &&& s.target_port == 25565
            &&& s.service_type == "NodePort"@
            &&& s.selector.contains(("pr"@, decimal(pr_number as nat)))
        }),
{
    let s = service_for(config, pr_number);
    assert(s.selector[1] == ("pr"@, decimal(pr_number as nat)));
}

/// A number that is a port is kept as it is, and any other is cut by whole multiples of the number
/// of ports.
pub proof fn ports_are_kept(node_port: i32)
    ensures
        0 <= node_port < 65536 ==> node_port_number(node_port) == node_port,
        (node_port - node_port_number(node_port)) % 65536 == 0,
{
}

/// A deployment is created whatever came of the request to delete an old one, and as it was to be
/// created; only where there was an old one is there a pause before. The one that was created has
/// the name that it was to have.
pub proof fn deployment_is_created_after_the_old_one(
    manifest: DeploymentView,
    deleted: bool,
    created: bool,
)
    ensures
        ({
            let step = deployment_after_delete(DeploymentStepView::DeleteOld { manifest }, deleted);
            &&& step matches DeploymentStepView::Create { manifest: kept, after_secs }
            &&& kept == manifest
            &&& after_secs > 0 <==> deleted
            &&& after_secs <= 2
            &&& match deployment_after_create(step, created) {
                DeploymentStepView::Created { name } => created && name == manifest.name,
                DeploymentStepView::Failed { .. } => !created,
                _ => false,
            }
        }),
{
}

/// A service that was created is reached at the node address, by the port that the cluster gave;
/// without a port, or without a service, the creation has failed.
pub proof fn service_is_reached_at_the_node(
    manifest: ServiceView,
    node_address: Seq<char>,
    reply: Result<Option<i32>, ClusterError>,
)
    ensures
        match service_after_create(ServiceStepView::Create { manifest }, node_address, reply) {
            ServiceStepView::Created { address, port } => address == node_address && (
            reply matches Ok(Some(n)) && (n - port) % 65536 == 0),
            ServiceStepView::Failed { .. } => !(reply matches Ok(Some(_))),
            _ => false,
        },
{
}

/// A failed request says that a thing is not there exactly where the cluster refused it with the
/// code for that, whatever its words; and the words of a failure are those that came with it.
pub proof fn failures_say_what_came(code: u16, text: String)
    ensures
        (ClusterError::Api { code, text }).is_not_found() <==> code == 404,
        !(ClusterError::Other { text }).is_not_found(),
        (ClusterError::Api { code, text }).words() == text@,
        (ClusterError::Other { text }).words() == text@,
{
}

/// A creation that the cluster refuses fails in the same words whatever came with the refusal, and a
/// service without a port in words of its own.
pub proof fn refused_creations_fail(
    deployment: DeploymentView,
    after_secs: u64,
    service: ServiceView,
    node_address: Seq<char>,
    refusal: ClusterError,
)
    ensures
        deployment_after_create(
            DeploymentStepView::Create { manifest: deployment, after_secs },
            false,
        ) == (DeploymentStepView::Failed { text: "Failed to create deployment"@ }),
        service_after_create(
            ServiceStepView::Create { manifest: service },
            node_address,
            Err(refusal),
        ) == (ServiceStepView::Failed { text: "Failed to create service"@ }),
        service_after_create(
            ServiceStepView::Create { manifest: service },
            node_address,
            Ok(None),
        ) == (ServiceStepView::Failed { text: "No NodePort assigned"@ }),
{
}

/// A recorded build has a service exactly where the cluster tells one, and at the place that it
/// tells; that the question failed counts as none.
pub proof fn services_are_where_the_cluster_tells(reply: Result<Option<(String, u16)>, String>)
    ensures
        service_in(reply) is Some <==> reply is Ok && reply->Ok_0 is Some,
        reply matches Ok(Some(place)) ==> service_in(reply) == Some((place.0@, place.1)),
{
}

/// Where a service is not there, there is none; where the cluster fails in another way, so does the
/// question, with the words of that failure; and a service that is there is reached at the node
/// address, by its port.
pub proof fn service_is_found_at_the_node(
    node_address: Seq<char>,
    reply: Result<Option<i32>, ClusterError>,
)
    ensures
        match service_answer(node_address, reply) {
            Ok(Some((address, port))) => address == node_address && (reply matches Ok(Some(n)) && (n
                - port) % 65536 == 0),
            Ok(None) => reply == Ok::<Option<i32>, ClusterError>(None) || (reply matches Err(e)
                && e.is_not_found()),
            Err(text) => reply matches Err(e) && !e.is_not_found() && text == e.words(),
        },
{
}

/// The deployment is deleted before the service of the same name; what is not there counts as
/// deleted; any other failure ends the deletion with its words; and an end is final.
pub proof fn deletion_goes_in_order(name: Seq<char>, reply: Result<(), ClusterError>)
    ensures
        ({
            let gone = reply is Ok || reply->Err_0.is_not_found();
            &&& after_deletion(DeletionView::DeleteDeployment { name }, reply) == (if gone {
                DeletionView::DeleteService { name }
            } else {
                DeletionView::Failed { text: reply->Err_0.words() }
            })
            &&& after_deletion(DeletionView::DeleteService { name }, reply) == (if gone {
                DeletionView::Done
            } else {
                DeletionView::Failed { text: reply->Err_0.words() }
            })
            &&& after_deletion(DeletionView::Done, reply) is Done
            &&& after_deletion(DeletionView::Failed { text: name }, reply) == (
            DeletionView::Failed { text: name })
        }),
{
}

/// A row of instances in which one is missing, twice, changed or made up is no snapshot.
pub proof fn snapshots_miss_nothing(
    row: Seq<(u32, crate::k8s::instance::PrInstance)>,
    m: Instances,
    pr_number: u32,
    i: int,
    j: int,
)
    requires
        is_snapshot(row, m),
    ensures
        m.contains_key(pr_number) <==> exists|k: int|
            0 <= k < row.len() && (#[trigger] row[k]).0 == pr_number,
        0 <= i < row.len() ==> m.contains_key(row[i].0) && m[row[i].0] == row[i].1@,
        0 <= i < row.len() && 0 <= j < row.len() && row[i].0 == row[j].0 ==> i == j,
{
    if exists|k: int| 0 <= k < row.len() && (#[trigger] row[k]).0 == pr_number {
        let k = choose|k: int| 0 <= k < row.len() && (#[trigger] row[k]).0 == pr_number;
        assert(m.contains_key(row[k].0));
    }
}

/// At the start the cluster is asked, for each build on record, for the deployment and then for the
/// service under the very name that they were created with; one without a deployment, or without a
/// service, is deleted from the records by its number; and one that is not ready is passed over.
pub proof fn records_are_looked_up_by_name(
    walk: RecoveryView,
    config: KubernetesConfig,
    tag: Seq<char>,
    service: (Seq<char>, u16),
)
    requires
        walk.left.len() > 0,
    ensures
        ({
            let pr_number = recorded_pr(walk.left[0]);
            let rest = walk.left.skip(1);
            &&& walk.next_step() == (RecoveryStepView::AskReadiness {
                deployment_name: deployment_for(config, pr_number, tag).name,
            })
            &&& after_readiness(walk, Some(true)).0 == walk
            &&& after_readiness(walk, Some(true)).1 == (RecoveryStepView::AskService {
                service_name: service_for(config, pr_number).name,
            })
            &&& after_readiness(walk, Some(false)).0.left == rest
            &&& after_readiness(walk, Some(false)).0.recovered == walk.recovered
            &&& after_readiness(walk, Some(false)).1 == after_readiness(
                walk,
                Some(false),
            ).0.next_step()
            &&& after_readiness(walk, None).0.left == rest
            &&& after_readiness(walk, None).0.recovered == walk.recovered
            &&& after_readiness(walk, None).1 == (RecoveryStepView::Forget {
                statement: forget_statement(pr_number),
            })
            &&& after_service(walk, None).0.left == rest
            &&& after_service(walk, None).0.recovered == walk.recovered
            &&& after_service(walk, None).1 == (RecoveryStepView::Forget {
                statement: forget_statement(pr_number),
            })
            &&& after_service(walk, Some(service)).0.left == rest
            &&& after_service(walk, Some(service)).0.recovered == walk.recovered + 1
            &&& after_service(walk, Some(service)).1 == after_service(
                walk,
                Some(service),
            ).0.next_step()
        }),
{
}

/// A walk ends exactly where no build is left, and then with the number of instances found again.
pub proof fn walks_end_with_their_count(walk: RecoveryView)
    ensures
        walk.next_step() is Done <==> walk.left.len() == 0,
        walk.next_step() matches RecoveryStepView::Done { recovered } ==> recovered
            == walk.recovered,
{
}

/// A build is deleted from the records by its own number, and by nothing else.
pub proof fn records_are_deleted_by_number(pr_number: u32)
    ensures
        forget_statement(pr_number).sql == DELETE@,
        forget_statement(pr_number).binds.len() == 1,
        forget_statement(pr_number).binds[0] == BindView::Integer(pr_number as i64),
{
}

/// A build that is found running becomes a ready instance with the hashes on its record, each in
/// its own place, at the place where its service was found, for the minutes of the settings from
/// then on; it is offered there, and another PR is left alone.
pub proof fn found_builds_are_taken_up(
    walk: RecoveryView,
    m: Instances,
    r: RegistryView,
    address: Seq<char>,
    port: u16,
    minutes: u64,
    now: Moment,
    other: u32,
)
    requires
        walk.left.len() > 0,
        timeout_fits(minutes, now),
    ensures
        ({
            let build = walk.left[0];
            let pr_number = recorded_pr(build);
            let n = instances_after_service(walk, m, Some((address, port)), minutes, now);
            let s = backends_after_service(walk, r, Some((address, port)));
            let i = n[pr_number];
            &&& n.contains_key(pr_number)
            &&& i == found_instance(build, address, port, minutes, now)
            &&& i.pr_number == pr_number
            &&& i.commit_hash == build.commit_hash@
            &&& i.commit_hash_short == build.commit_hash_short@
            &&& i.state matches InstanceStateView::Ready {
                deployment_name,
                address: a,
                port: q,
                ready_at,
                shutdown_at,
            }
            &&& deployment_name == resource_name(pr_number)
            &&& a == address
            &&& q == port
            &&& ready_at == now
            &&& shutdown_at.nanos == now.nanos + minutes * 60_000_000_000
            &&& s.find(backend_name(pr_number)) matches Some(b)
            &&& b.address == address
            &&& b.port == port
            &&& s.fixed == r.fixed
            &&& other != pr_number ==> n.contains_key(other) == m.contains_key(other)
            &&& other != pr_number && m.contains_key(other) ==> n[other] == m[other]
            &&& instances_after_service(walk, m, None, minutes, now) == m
            &&& backends_after_service(walk, r, None) == r
        }),
{
}

/// The number of a PR is what is left of the number on record when whole multiples of the numbers
/// that there are for PRs are taken away.
pub proof fn recorded_numbers_are_cut(build: PrBuild)
    ensures
        (build.pr_number - recorded_pr(build)) % 0x1_0000_0000 == 0,
{
    let x = build.pr_number;
    assert(((x as u32) as u64) == (x as u64) & 0xffff_ffffu64) by (bit_vector);
    assert((x as u64) & 0xffff_ffffu64 == (x as u64) % 0x1_0000_0000u64) by (bit_vector);
    if x < 0 {
        assert(x < 0 ==> (x as u64) == x + 0x1_0000_0000_0000_0000) by (bit_vector);
    }
}

} // verus!
