//! What the views of values show.
use crate::config::{optional_text, BackendServer};
use crate::db::models::{binds_view, Bind, BindView, Statement};
use crate::http::{pairs_view, HttpRequest};
use crate::jenkins::{BuildStatus, BuildStatusView};
use crate::k8s::instance::{InstanceState, InstanceStateView, PrInstance};
use crate::k8s::lifecycle::{LifecycleStep, StepView};
use crate::k8s::manifest::{
    DeletionStep, DeletionView, DeploymentManifest, DeploymentStep, DeploymentStepView,
    ServiceManifest, ServiceStep, ServiceStepView,
};
use crate::k8s::recovery::{RecoveryStep, RecoveryStepView};
use crate::packets::{nodes_view, CommandNode, NodeKind, NodeKindView, RawPacket};
use crate::proxy::backend_connector::{LoginStep, LoginStepView};
use crate::proxy::packet_forwarder::{
    CommandView, EventView, ForwardStep, ForwardView, ForwarderEvent, ProxyCommand,
};
use crate::proxy::registry::row_view;
use vstd::prelude::*;

verus! {

/// A text that may be missing is seen with its characters where it is there, and as missing where it
/// is not.
pub proof fn optional_texts_show_all(t: Option<String>)
    ensures
        optional_text(t) is Some <==> t is Some,
        t matches Some(s) ==> optional_text(t) == Some(s@),
{
}

/// A row of names and values is seen in its order, each name with its own value.
pub proof fn pairs_show_all(pairs: Seq<(String, String)>, i: int)
    requires
        0 <= i < pairs.len(),
    ensures
        pairs_view(pairs).len() == pairs.len(),
        pairs_view(pairs)[i].0 == pairs[i].0@,
        pairs_view(pairs)[i].1 == pairs[i].1@,
{
}

/// A backend is seen with its own address, port and description.
pub proof fn backends_show_all(b: BackendServer)
    ensures
        b@.address == b.address@,
        b@.port == b.port,
        b@.description is Some <==> b.description is Some,
        b.description matches Some(d) ==> b@.description == Some(d@),
{
}

/// A row of backends is seen in its order, each with its own name.
pub proof fn backend_rows_show_all(row: Seq<(&String, &BackendServer)>, i: int)
    requires
        0 <= i < row.len(),
    ensures
        row_view(row).len() == row.len(),
        row_view(row)[i].0 == row[i].0@,
        row_view(row)[i].1 == row[i].1@,
{
}

/// A statement is seen with its text, and with its values in their order.
pub proof fn statements_show_all(s: Statement, i: int)
    requires
        0 <= i < s.binds@.len(),
    ensures
        s@.sql == s.sql@,
        s@.binds.len() == s.binds@.len(),
        s@.binds == binds_view(s.binds@),
        match s.binds@[i] {
            Bind::Integer(n) => s@.binds[i] == BindView::Integer(n),
            Bind::Text(t) => s@.binds[i] == BindView::Text(t@),
            Bind::OptionalText(Some(t)) => s@.binds[i] == BindView::OptionalText(Some(t@)),
            Bind::OptionalText(None) => s@.binds[i] == BindView::OptionalText(None),
        },
{
}

/// A request is seen with its method, its address, its credentials, and the names and values in its
/// headers and its form.
pub proof fn requests_show_all(q: HttpRequest)
    ensures
        q@.method == q.method,
        q@.url == q.url@,
        q@.basic_auth is Some <==> q.basic_auth is Some,
        q.basic_auth matches Some(c) ==> q@.basic_auth == Some((c.0@, c.1@)),
        q@.headers == pairs_view(q.headers@),
        q@.form == pairs_view(q.form@),
{
}

/// The status of a build is seen as what it is.
pub proof fn statuses_show_all(s: BuildStatus)
    ensures
        s is Queued <==> s@ is Queued,
        s is Building <==> s@ is Building,
        s is Success <==> s@ is Success,
        s is NotFound <==> s@ is NotFound,
        s matches BuildStatus::Failed { reason } ==> s@ == (BuildStatusView::Failed {
            reason: reason@,
        }),
{
}

/// An instance is seen with its number, its commit and its state, and the state with all it holds:
/// names are not taken for addresses, nor one moment for another.
pub proof fn instances_show_all(i: PrInstance)
    ensures
        i@.pr_number == i.pr_number,
        i@.commit_hash == i.commit_hash@,
        i@.commit_hash_short == i.commit_hash_short@,
        match i.state {
            InstanceState::Building { started_at: t, build_url: u } => {
                &&& i@.state matches InstanceStateView::Building { started_at, build_url }
                &&& started_at == t
                &&& build_url is Some <==> u is Some
                &&& u matches Some(url) ==> build_url == Some(url@)
            },
            InstanceState::Deploying { image_tag: g } => {
                &&& i@.state matches InstanceStateView::Deploying { image_tag }
                &&& image_tag == g@
            },
            InstanceState::Starting { deployment_name: d, address: a, port: p, started_at: t } => {
                &&& i@.state matches InstanceStateView::Starting {
                    deployment_name,
                    address,
                    port,
                    started_at,
                }
                &&& deployment_name == d@
                &&& address == a@
                &&& port == p
                &&& started_at == t
            },
            InstanceState::Ready {
                deployment_name: d,
                address: a,
                port: p,
                ready_at: t,
                shutdown_at: e,
            } => {
                &&& i@.state matches InstanceStateView::Ready {
                    deployment_name,
                    address,
                    port,
                    ready_at,
                    shutdown_at,
                }
                &&& deployment_name == d@
                &&& address == a@
                &&& port == p
                &&& ready_at == t
                &&& shutdown_at == e
            },
            InstanceState::ShuttingDown { deployment_name: d } => {
                &&& i@.state matches InstanceStateView::ShuttingDown { deployment_name }
                &&& deployment_name == d@
            },
            InstanceState::Failed { reason: w } => {
                &&& i@.state matches InstanceStateView::Failed { reason }
                &&& reason == w@
            },
        },
{
}

/// What a turn asks for is seen as what it is, with the names and places in it.
pub proof fn turn_steps_show_all(s: LifecycleStep)
    ensures
        s is DeleteResources <==> s@ is DeleteResources,
        s is Idle <==> s@ is Idle,
        s matches LifecycleStep::AskBuildUrl { queue_url } ==> s@ == (StepView::AskBuildUrl {
            queue_url: queue_url@,
        }),
        s matches LifecycleStep::AskBuildStatus { build_url } ==> s@ == (StepView::AskBuildStatus {
            build_url: build_url@,
        }),
        s matches LifecycleStep::CreateDeployment { image_tag } ==> s@ == (
        StepView::CreateDeployment { image_tag: image_tag@ }),
        s matches LifecycleStep::CreateService { deployment_name } ==> s@ == (
        StepView::CreateService { deployment_name: deployment_name@ }),
        s matches LifecycleStep::AskReadiness { deployment_name, address, port } ==> s@ == (
        StepView::AskReadiness { deployment_name: deployment_name@, address: address@, port }),
        s matches LifecycleStep::SaveBuild { statement } ==> s@ == (StepView::SaveBuild {
            statement: statement@,
        }),
{
}

/// A deployment is seen with every setting in its own place.
pub proof fn deployments_show_all(d: DeploymentManifest)
    ensures
        d@.name == d.name@,
        d@.namespace == d.namespace@,
        d@.labels == pairs_view(d.labels@),
        d@.replicas == d.replicas,
        d@.container_name == d.container_name@,
        d@.image == d.image@,
        d@.container_port == d.container_port,
        d@.port_name == d.port_name@,
        d@.memory_limit == d.memory_limit@,
        d@.cpu_limit == d.cpu_limit@,
        d@.memory_request == d.memory_request@,
        d@.cpu_request == d.cpu_request@,
        d@.probe_port == d.probe_port,
        d@.probe_delay_secs == d.probe_delay_secs,
        d@.probe_period_secs == d.probe_period_secs,
{
}

/// A service is seen with every setting in its own place.
pub proof fn services_show_all(s: ServiceManifest)
    ensures
        s@.name == s.name@,
        s@.namespace == s.namespace@,
        s@.selector == pairs_view(s.selector@),
        s@.port == s.port,
        s@.target_port == s.target_port,
        s@.port_name == s.port_name@,
        s@.service_type == s.service_type@,
{
}

/// What the cluster is asked for is seen as what it is, with the names, places and settings in it.
pub proof fn cluster_steps_show_all(d: DeploymentStep, s: ServiceStep, e: DeletionStep)
    ensures
        match d {
            DeploymentStep::DeleteOld { manifest } => d@ == (DeploymentStepView::DeleteOld {
                manifest: manifest@,
            }),
            DeploymentStep::Create { manifest, after_secs } => d@ == (DeploymentStepView::Create {
                manifest: manifest@,
                after_secs,
            }),
            DeploymentStep::Created { name } => d@ == (DeploymentStepView::Created { name: name@ }),
            DeploymentStep::Failed { text } => d@ == (DeploymentStepView::Failed { text: text@ }),
        },
        match s {
            ServiceStep::DeleteOld { manifest } => s@ == (ServiceStepView::DeleteOld {
                manifest: manifest@,
            }),
            ServiceStep::Create { manifest } => s@ == (ServiceStepView::Create {
                manifest: manifest@,
            }),
            ServiceStep::Created { address, port } => s@ == (ServiceStepView::Created {
                address: address@,
                port,
            }),
            ServiceStep::Failed { text } => s@ == (ServiceStepView::Failed { text: text@ }),
        },
        match e {
            DeletionStep::DeleteDeployment { name } => e@ == (DeletionView::DeleteDeployment {
                name: name@,
            }),
            DeletionStep::DeleteService { name } => e@ == (DeletionView::DeleteService {
                name: name@,
            }),
            DeletionStep::Done => e@ is Done,
            DeletionStep::Failed { text } => e@ == (DeletionView::Failed { text: text@ }),
        },
{
}

/// What a walk over the records asks for is seen as what it is, with the names in it.
pub proof fn walk_steps_show_all(s: RecoveryStep)
    ensures
        match s {
            RecoveryStep::AskReadiness { deployment_name } => s@ == (
            RecoveryStepView::AskReadiness { deployment_name: deployment_name@ }),
            RecoveryStep::AskService { service_name } => s@ == (RecoveryStepView::AskService {
                service_name: service_name@,
            }),
            RecoveryStep::Forget { statement } => s@ == (RecoveryStepView::Forget {
                statement: statement@,
            }),
            RecoveryStep::Done { recovered } => s@ == (RecoveryStepView::Done {
                recovered: recovered as nat,
            }),
        },
{
}

/// A packet is seen with its number and its payload.
pub proof fn packets_show_all(p: RawPacket)
    ensures
        p@.id == p.id,
        p@.payload == p.payload@,
{
}

/// A command tree is seen with its nodes in their order, each with its words, what can come next,
/// and whether a command can end there.
pub proof fn commands_show_all(nodes: Seq<CommandNode>, i: int)
    requires
        0 <= i < nodes.len(),
    ensures
        nodes_view(nodes).len() == nodes.len(),
        nodes_view(nodes)[i].children == nodes[i].children@,
        nodes_view(nodes)[i].executable == nodes[i].executable,
        match nodes[i].kind {
            NodeKind::Root => nodes_view(nodes)[i].kind is Root,
            NodeKind::Literal { name } => nodes_view(nodes)[i].kind == (NodeKindView::Literal {
                name: name@,
            }),
            NodeKind::Argument { name, parser } => nodes_view(nodes)[i].kind == (
            NodeKindView::Argument { name: name@, parser }),
        },
{
}

/// A step of a login is seen with the threshold or the packet in it.
pub proof fn login_steps_show_all(s: LoginStep)
    ensures
        match s {
            LoginStep::Compress { threshold } => s@ == (LoginStepView::Compress { threshold }),
            LoginStep::Wait => s@ is Wait,
            LoginStep::Acknowledge { packet, compression } => s@ == (LoginStepView::Acknowledge {
                packet: packet@,
                compression,
            }),
        },
{
}

/// A command is seen with what it is about.
pub proof fn proxy_commands_show_all(c: ProxyCommand)
    ensures
        match c {
            ProxyCommand::List => c@ is List,
            ProxyCommand::Switch { server } => c@ == (CommandView::Switch { server: server@ }),
            ProxyCommand::Start { pr_arg } => c@ == (CommandView::Start { pr_arg: pr_arg@ }),
            ProxyCommand::Status { pr_arg } => c@ == (CommandView::Status { pr_arg: pr_arg@ }),
        },
{
}

/// What is to be sent, said or ended is seen with all it holds.
pub proof fn forward_steps_show_all(s: ForwardStep)
    ensures
        match s {
            ForwardStep::Nothing => s@ is Nothing,
            ForwardStep::ToBackend { bytes, compression } => s@ == (ForwardView::ToBackend {
                bytes: bytes@,
                compression,
            }),
            ForwardStep::ToClient { bytes, must_arrive } => s@ == (ForwardView::ToClient {
                bytes: bytes@,
                must_arrive,
            }),
            ForwardStep::SendCommands { commands } => s@ == (ForwardView::SendCommands {
                nodes: nodes_view(commands.nodes@),
                root_index: commands.root_index,
            }),
            ForwardStep::Say { text, must_arrive } => s@ == (ForwardView::Say {
                text: text@,
                must_arrive,
            }),
            ForwardStep::Transfer { packet } => s@ == (ForwardView::Transfer {
                host: packet.host@,
                port: packet.port,
            }),
            ForwardStep::StartPr { pr_number } => s@ == (ForwardView::StartPr { pr_number }),
            ForwardStep::End { error: Some(text) } => s@ == (ForwardView::End {
                error: Some(text@),
            }),
            ForwardStep::End { error: None } => s@ == (ForwardView::End { error: None }),
        },
{
}

/// What happens on a connection is seen on the side on which it happens, with what came.
pub proof fn events_show_all(e: ForwarderEvent)
    ensures
        match e {
            ForwarderEvent::Backend(Ok(p)) => e@ == EventView::Backend(Ok(p@)),
            ForwarderEvent::Backend(Err(t)) => e@ == EventView::Backend(Err(t@)),
            ForwarderEvent::Client(Ok(p)) => e@ == EventView::Client(Ok(p@)),
            ForwarderEvent::Client(Err(t)) => e@ == EventView::Client(Err(t@)),
            ForwarderEvent::Broadcast(Some(t)) => e@ == EventView::Broadcast(Some(t@)),
            ForwarderEvent::Broadcast(None) => e@ == EventView::Broadcast(None),
            ForwarderEvent::TimedOut => e@ is TimedOut,
            ForwarderEvent::AllClosed => e@ is AllClosed,
        },
{
}

} // verus!
