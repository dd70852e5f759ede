//! What the proxy asks the cluster to run for a PR, and what it makes of the answers.
use crate::config::KubernetesConfig;
use crate::http::{pairs_view, push_pair, Pairs};
use crate::k8s::instance::{image_path, image_path_of, resource_name, resource_name_of};
use crate::k8s::K8sManager;
use crate::text::{decimal, decimal_text};
use vstd::prelude::*;

verus! {

/// The port on which a server takes players.
pub const SERVER_PORT: u16 = 25565;

/// Seconds to wait after an old deployment was deleted.
pub const DELETE_PAUSE_SECS: u64 = 2;

/// A deployment of one server.
#[derive(Debug)]
pub struct DeploymentManifest {
    pub name: String,
    pub namespace: String,
    /// Labels of the deployment and of its pods, by which it also selects its pods
    pub labels: Vec<(String, String)>,
    pub replicas: i32,
    pub container_name: String,
    pub image: String,
    pub container_port: u16,
    pub port_name: String,
    pub memory_limit: String,
    pub cpu_limit: String,
    pub memory_request: String,
    pub cpu_request: String,
    /// Port that must take connections before the pod counts as ready
    pub probe_port: u16,
    pub probe_delay_secs: i32,
    pub probe_period_secs: i32,
}

/// The values in a [`DeploymentManifest`].
#[verifier::ext_equal]
pub struct DeploymentView {
    pub name: Seq<char>,
    pub namespace: Seq<char>,
    pub labels: Pairs,
    pub replicas: i32,
    pub container_name: Seq<char>,
    pub image: Seq<char>,
    pub container_port: u16,
    pub port_name: Seq<char>,
    pub memory_limit: Seq<char>,
    pub cpu_limit: Seq<char>,
    pub memory_request: Seq<char>,
    pub cpu_request: Seq<char>,
    pub probe_port: u16,
    pub probe_delay_secs: i32,
    pub probe_period_secs: i32,
}

impl View for DeploymentManifest {
    type V = DeploymentView;

    open spec fn view(&self) -> DeploymentView {
        DeploymentView {
            name: self.name@,
            namespace: self.namespace@,
            labels: pairs_view(self.labels@),
            replicas: self.replicas,
            container_name: self.container_name@,
            image: self.image@,
            container_port: self.container_port,
            port_name: self.port_name@,
            memory_limit: self.memory_limit@,
            cpu_limit: self.cpu_limit@,
            memory_request: self.memory_request@,
            cpu_request: self.cpu_request@,
            probe_port: self.probe_port,
            probe_delay_secs: self.probe_delay_secs,
            probe_period_secs: self.probe_period_secs,
        }
    }
}

/// A service in front of a deployment.
#[derive(Debug)]
pub struct ServiceManifest {
    pub name: String,
    pub namespace: String,
    /// Labels of the pods that it sends connections to
    pub selector: Vec<(String, String)>,
    pub port: u16,
    pub target_port: u16,
    pub port_name: String,
    pub service_type: String,
}

/// The values in a [`ServiceManifest`].
#[verifier::ext_equal]
pub struct ServiceView {
    pub name: Seq<char>,
    pub namespace: Seq<char>,
    pub selector: Pairs,
    pub port: u16,
    pub target_port: u16,
    pub port_name: Seq<char>,
    pub service_type: Seq<char>,
}

impl View for ServiceManifest {
    type V = ServiceView;

    open spec fn view(&self) -> ServiceView {
        ServiceView {
            name: self.name@,
            namespace: self.namespace@,
            selector: pairs_view(self.selector@),
            port: self.port,
            target_port: self.target_port,
            port_name: self.port_name@,
            service_type: self.service_type@,
        }
    }
}

/// The labels of everything that runs for a PR.
pub open spec fn pr_labels(pr_number: u32) -> Pairs {
    seq![("app"@, "steel-server"@), ("pr"@, decimal(pr_number as nat))]
}

/// The deployment for a PR: one server from the image of that tag.
pub open spec fn deployment_for(config: KubernetesConfig, pr_number: u32, tag: Seq<char>) -> DeploymentView {
    DeploymentView {
        name: resource_name(pr_number),
        namespace: config.namespace@,
        labels: pr_labels(pr_number),
        replicas: 1,
        container_name: "steel-server"@,
        image: image_path(config.registry@, config.image_name@, tag),
        container_port: SERVER_PORT,
        port_name: "minecraft"@,
        memory_limit: config.resources.memory@,
        cpu_limit: config.resources.cpu@,
        memory_request: "512Mi"@,
        cpu_request: "250m"@,
        probe_port: SERVER_PORT,
        probe_delay_secs: 10,
        probe_period_secs: 5,
    }
}

/// The service for a PR.
pub open spec fn service_for(config: KubernetesConfig, pr_number: u32) -> ServiceView {
    ServiceView {
        name: resource_name(pr_number),
        namespace: config.namespace@,
        selector: pr_labels(pr_number),
        port: SERVER_PORT,
        target_port: SERVER_PORT,
        port_name: "minecraft"@,
        service_type: "NodePort"@,
    }
}

fn labels_of(pr_number: u32) -> (r: Vec<(String, String)>)
    ensures
        pairs_view(r@) == pr_labels(pr_number),
{
    let mut labels: Vec<(String, String)> = Vec::new();
    let number = decimal_text(pr_number as u64);
    push_pair(&mut labels, "app", "steel-server");
    push_pair(&mut labels, "pr", number.as_str());
    assert(pairs_view(labels@) =~= pr_labels(pr_number));
    labels
}

/// A failed request to the cluster.
#[derive(Debug)]
pub enum ClusterError {
    /// The cluster refused it with this code.
    Api { code: u16, text: String },
    /// It did not get an answer from the cluster.
    Other { text: String },
}

impl ClusterError {
    /// The failure in words.
    pub open spec fn words(&self) -> Seq<char> {
        match self {
            ClusterError::Api { text, .. } => text@,
            ClusterError::Other { text } => text@,
        }
    }

    /// Whether the cluster says that there is no such thing.
    pub open spec fn is_not_found(&self) -> bool {
        self matches ClusterError::Api { code, .. } && code == 404
    }

    /// Whether the cluster says that there is no such thing.
    pub fn not_found(&self) -> (r: bool)
        ensures
            r == self.is_not_found(),
    {
        match self {
            ClusterError::Api { code, .. } => *code == 404,
            ClusterError::Other { .. } => false,
        }
    }

    /// The failure in words.
    pub fn message(self) -> (r: String)
        ensures
            r@ == self.words(),
    {
        match self {
            ClusterError::Api { text, .. } => text,
            ClusterError::Other { text } => text,
        }
    }
}

/// The number of the port of a node, cut to sixteen bits.
pub open spec fn node_port_number(node_port: i32) -> u16 {
    (crate::codec::as_unsigned(node_port) % 0x1_0000) as u16
}

fn to_port(node_port: i32) -> (r: u16)
    ensures
        r == node_port_number(node_port),
{
    let bits: u32 = if node_port < 0 {
        ((node_port as i64) + 0x1_0000_0000) as u32
    } else {
        node_port as u32
    };
    (bits % 0x1_0000) as u16
}

/// The next request while the deployment of a PR is being created.
#[derive(Debug)]
pub enum DeploymentStep {
    /// Delete an old deployment of this name, and hand the answer to
    /// [`DeploymentStep::after_delete`].
    DeleteOld { manifest: DeploymentManifest },
    /// Wait for these seconds, create the deployment, and hand the answer to
    /// [`DeploymentStep::after_create`].
    Create { manifest: DeploymentManifest, after_secs: u64 },
    /// The deployment of this name is there.
    Created { name: String },
    /// There is no deployment, for this reason.
    Failed { text: String },
}

/// The values in a [`DeploymentStep`].
pub enum DeploymentStepView {
    DeleteOld { manifest: DeploymentView },
    Create { manifest: DeploymentView, after_secs: u64 },
    Created { name: Seq<char> },
    Failed { text: Seq<char> },
}

impl View for DeploymentStep {
    type V = DeploymentStepView;

    open spec fn view(&self) -> DeploymentStepView {
        match self {
            DeploymentStep::DeleteOld { manifest } => DeploymentStepView::DeleteOld {
                manifest: manifest@,
            },
            DeploymentStep::Create { manifest, after_secs } => DeploymentStepView::Create {
                manifest: manifest@,
                after_secs: *after_secs,
            },
            DeploymentStep::Created { name } => DeploymentStepView::Created { name: name@ },
            DeploymentStep::Failed { text } => DeploymentStepView::Failed { text: text@ },
        }
    }
}

/// What follows the request to delete an old deployment: the new one is created whatever the
/// answer, but only after a pause where there was an old one, which takes time to go.
pub open spec fn deployment_after_delete(step: DeploymentStepView, deleted: bool) -> DeploymentStepView {
    match step {
        DeploymentStepView::DeleteOld { manifest } => DeploymentStepView::Create {
            manifest,
            after_secs: if deleted {
                DELETE_PAUSE_SECS
            } else {
                0
            },
        },
        other => other,
    }
}

/// What follows the request to create a deployment.
pub open spec fn deployment_after_create(step: DeploymentStepView, created: bool) -> DeploymentStepView {
    match step {
        DeploymentStepView::Create { manifest, .. } => if created {
            DeploymentStepView::Created { name: manifest.name }
        } else {
            DeploymentStepView::Failed { text: "Failed to create deployment"@ }
        },
        other => other,
    }
}

impl DeploymentStep {
    /// The step after the cluster has answered whether it deleted an old deployment.
    pub fn after_delete(self, reply: &Result<(), ClusterError>) -> (r: DeploymentStep)
        ensures
            r@ == deployment_after_delete(self@, reply is Ok),
    {
        match self {
            DeploymentStep::DeleteOld { manifest } => {
                let after_secs: u64 = match reply {
                    Ok(()) => DELETE_PAUSE_SECS,
                    Err(_) => 0,
                };
                DeploymentStep::Create { manifest, after_secs }
            },
            other => other,
        }
    }

    /// The step after the cluster has answered whether it created the deployment.
    pub fn after_create(self, reply: &Result<(), ClusterError>) -> (r: DeploymentStep)
        ensures
            r@ == deployment_after_create(self@, reply is Ok),
    {
        match self {
            DeploymentStep::Create { manifest, .. } => match reply {
                Ok(()) => DeploymentStep::Created { name: manifest.name },
                Err(_) => DeploymentStep::Failed {
                    text: "Failed to create deployment".to_owned(),
                },
            },
            other => other,
        }
    }
}

/// The next request while the service of a PR is being created.
#[derive(Debug)]
pub enum ServiceStep {
    /// Delete an old service of this name, and go on with [`ServiceStep::after_delete`] whatever
    /// the answer.
    DeleteOld { manifest: ServiceManifest },
    /// Create the service, and hand the answer to [`K8sManager::service_created`].
    Create { manifest: ServiceManifest },
    /// Players reach the service at this address and port.
    Created { address: String, port: u16 },
    /// There is no service, for this reason.
    Failed { text: String },
}

/// The values in a [`ServiceStep`].
pub enum ServiceStepView {
    DeleteOld { manifest: ServiceView },
    Create { manifest: ServiceView },
    Created { address: Seq<char>, port: u16 },
    Failed { text: Seq<char> },
}

impl View for ServiceStep {
    type V = ServiceStepView;

    open spec fn view(&self) -> ServiceStepView {
        match self {
            ServiceStep::DeleteOld { manifest } => ServiceStepView::DeleteOld {
                manifest: manifest@,
            },
            ServiceStep::Create { manifest } => ServiceStepView::Create { manifest: manifest@ },
            ServiceStep::Created { address, port } => ServiceStepView::Created {
                address: address@,
                port: *port,
            },
            ServiceStep::Failed { text } => ServiceStepView::Failed { text: text@ },
        }
    }
}

/// What follows the request to create a service: players reach it at the address of the node, by
/// the port that the cluster gave it.
pub open spec fn service_after_create(
    step: ServiceStepView,
    node_address: Seq<char>,
    reply: Result<Option<i32>, ClusterError>,
) -> ServiceStepView {
    match step {
        ServiceStepView::Create { .. } => match reply {
            Ok(Some(node_port)) => ServiceStepView::Created {
                address: node_address,
                port: node_port_number(node_port),
            },
            Ok(None) => ServiceStepView::Failed { text: "No NodePort assigned"@ },
            Err(_) => ServiceStepView::Failed { text: "Failed to create service"@ },
        },
        other => other,
    }
}

impl ServiceStep {
    /// The step after the cluster was asked to delete an old service.
    pub fn after_delete(self) -> (r: ServiceStep)
        ensures
            r@ == (match self@ {
                ServiceStepView::DeleteOld { manifest } => ServiceStepView::Create { manifest },
                other => other,
            }),
    {
        match self {
            ServiceStep::DeleteOld { manifest } => ServiceStep::Create { manifest },
            other => other,
        }
    }

    /// The step after the cluster has answered whether it created the service; the reply is the
    /// first port of the service.
    fn after_create(self, node_address: &str, reply: &Result<Option<i32>, ClusterError>) -> (r:
        ServiceStep)
        ensures
            r@ == service_after_create(self@, node_address@, *reply),
    {
        match self {
            ServiceStep::Create { .. } => match reply {
                Ok(Some(n)) => ServiceStep::Created {
                    address: node_address.to_owned(),
                    port: to_port(*n),
                },
                Ok(None) => ServiceStep::Failed { text: "No NodePort assigned".to_owned() },
                Err(_) => ServiceStep::Failed { text: "Failed to create service".to_owned() },
            },
            other => other,
        }
    }
}

/// The next request while the resources of a PR are being deleted.
#[derive(Debug)]
pub enum DeletionStep {
    /// Delete the deployment of this name.
    DeleteDeployment { name: String },
    /// Delete the service of this name.
    DeleteService { name: String },
    /// Both are gone.
    Done,
    /// A request failed, for this reason.
    Failed { text: String },
}

/// The values in a [`DeletionStep`].
pub enum DeletionView {
    DeleteDeployment { name: Seq<char> },
    DeleteService { name: Seq<char> },
    Done,
    Failed { text: Seq<char> },
}

impl View for DeletionStep {
    type V = DeletionView;

    open spec fn view(&self) -> DeletionView {
        match self {
            DeletionStep::DeleteDeployment { name } => DeletionView::DeleteDeployment {
                name: name@,
            },
            DeletionStep::DeleteService { name } => DeletionView::DeleteService { name: name@ },
            DeletionStep::Done => DeletionView::Done,
            DeletionStep::Failed { text } => DeletionView::Failed { text: text@ },
        }
    }
}

/// What follows a request to delete something: what is not there needs no deleting, and any other
/// failure ends the deletion.
pub open spec fn after_deletion(step: DeletionView, reply: Result<(), ClusterError>) -> DeletionView {
    match step {
        DeletionView::DeleteDeployment { name } => if reply is Ok || reply->Err_0.is_not_found() {
            DeletionView::DeleteService { name }
        } else {
            DeletionView::Failed { text: reply->Err_0.words() }
        },
        DeletionView::DeleteService { name } => if reply is Ok || reply->Err_0.is_not_found() {
            DeletionView::Done
        } else {
            DeletionView::Failed { text: reply->Err_0.words() }
        },
        other => other,
    }
}

impl DeletionStep {
    /// The step after the cluster has answered.
    pub fn next(self, reply: Result<(), ClusterError>) -> (r: DeletionStep)
        ensures
            r@ == after_deletion(self@, reply),
    {
        match self {
            DeletionStep::DeleteDeployment { name } => match reply {
                Ok(()) => DeletionStep::DeleteService { name },
                Err(e) => if e.not_found() {
                    DeletionStep::DeleteService { name }
                } else {
                    DeletionStep::Failed { text: e.message() }
                },
            },
            DeletionStep::DeleteService { name } => match reply {
                Ok(()) => DeletionStep::Done,
                Err(e) => if e.not_found() {
                    DeletionStep::Done
                } else {
                    DeletionStep::Failed { text: e.message() }
                },
            },
            other => other,
        }
    }
}

/// What the cluster says of the service of a PR.
pub open spec fn service_answer(
    node_address: Seq<char>,
    reply: Result<Option<i32>, ClusterError>,
) -> Result<Option<(Seq<char>, u16)>, Seq<char>> {
    match reply {
        Ok(Some(node_port)) => Ok(Some((node_address, node_port_number(node_port)))),
        Ok(None) => Ok(None),
        Err(e) => if e.is_not_found() {
            Ok(None)
        } else {
            Err(e.words())
        },
    }
}

impl K8sManager {
    /// Create a Kubernetes deployment for a PR instance (deletes existing if present): the first
    /// step. `image_tag` is the tag only (e.g., "pr-42-abc1234"), not the full path.
    pub fn create_deployment(&self, pr_number: u32, image_tag: &str) -> (r: DeploymentStep)
        ensures
            r@ == (DeploymentStepView::DeleteOld {
                manifest: deployment_for(self.settings(), pr_number, image_tag@),
            }),
    {
        let config = self.config();
        let manifest = DeploymentManifest {
            name: resource_name_of(pr_number),
            namespace: config.namespace.clone(),
            labels: labels_of(pr_number),
            replicas: 1,
            container_name: "steel-server".to_owned(),
            image: image_path_of(config.registry.as_str(), config.image_name.as_str(), image_tag),
            container_port: SERVER_PORT,
            port_name: "minecraft".to_owned(),
            memory_limit: config.resources.memory.clone(),
            cpu_limit: config.resources.cpu.clone(),
            memory_request: "512Mi".to_owned(),
            cpu_request: "250m".to_owned(),
            probe_port: SERVER_PORT,
            probe_delay_secs: 10,
            probe_period_secs: 5,
        };
        DeploymentStep::DeleteOld { manifest }
    }

    /// Create a Kubernetes service for a PR instance (deletes existing if present): the first step.
    pub fn create_service(&self, pr_number: u32) -> (r: ServiceStep)
        ensures
            r@ == (ServiceStepView::DeleteOld { manifest: service_for(self.settings(), pr_number) }),
    {
        let manifest = ServiceManifest {
            name: resource_name_of(pr_number),
            namespace: self.config().namespace.clone(),
            selector: labels_of(pr_number),
            port: SERVER_PORT,
            target_port: SERVER_PORT,
            port_name: "minecraft".to_owned(),
            service_type: "NodePort".to_owned(),
        };
        ServiceStep::DeleteOld { manifest }
    }

    /// The step after the cluster has answered whether it created a service; the reply is the first
    /// port of the service. Players reach it at the node address of the settings.
    pub fn service_created(
        &self,
        step: ServiceStep,
        reply: &Result<Option<i32>, ClusterError>,
    ) -> (r: ServiceStep)
        ensures
            r@ == service_after_create(step@, self.settings().node_address@, *reply),
    {
        step.after_create(self.config().node_address.as_str(), reply)
    }

    /// Where players reach the service of a PR, as far as the cluster has one: `reply` is the
    /// first port of the service.
    pub fn get_service_info(&self, reply: Result<Option<i32>, ClusterError>) -> (r: Result<
        Option<(String, u16)>,
        String,
    >)
        ensures
            match r {
                Ok(Some((address, port))) => service_answer(self.settings().node_address@, reply)
                    == Ok::<Option<(Seq<char>, u16)>, Seq<char>>(Some((address@, port))),
                Ok(None) => service_answer(self.settings().node_address@, reply) == Ok::<
                    Option<(Seq<char>, u16)>,
                    Seq<char>,
                >(None),
                Err(text) => service_answer(self.settings().node_address@, reply) == Err::<
                    Option<(Seq<char>, u16)>,
                    Seq<char>,
                >(text@),
            },
    {
        match reply {
            Ok(Some(n)) => Ok(Some((self.config().node_address.clone(), to_port(n)))),
            Ok(None) => Ok(None),
            Err(e) => if e.not_found() {
                Ok(None)
            } else {
                Err(e.message())
            },
        }
    }

    /// The first step to delete a PR instance's deployment and service
    pub fn delete_instance(&self, pr_number: u32) -> (r: DeletionStep)
        ensures
            r@ == (DeletionView::DeleteDeployment { name: resource_name(pr_number) }),
    {
        DeletionStep::DeleteDeployment { name: resource_name_of(pr_number) }
    }

    /// Check if a deployment is ready (has available replicas)
    pub fn is_deployment_ready(available_replicas: Option<i32>) -> (r: bool)
        ensures
            r == (available_replicas matches Some(n) && n > 0),
    {
        match available_replicas {
            Some(n) => n > 0,
            None => false,
        }
    }
}

/// The service of a PR sends connections to the pods of its deployment, and to the port on which
/// they take players, which is also the port whose probe makes them ready; both have one name.
pub proof fn service_reaches_deployment(config: KubernetesConfig, pr_number: u32, tag: Seq<char>)
    ensures
        service_for(config, pr_number).selector == deployment_for(config, pr_number, tag).labels,
        service_for(config, pr_number).target_port == deployment_for(
            config,
            pr_number,
            tag,
        ).container_port,
        service_for(config, pr_number).target_port == deployment_for(
            config,
            pr_number,
            tag,
        ).probe_port,
        service_for(config, pr_number).name == deployment_for(config, pr_number, tag).name,
        service_for(config, pr_number).namespace == deployment_for(
            config,
            pr_number,
            tag,
        ).namespace,
{
}

/// The service of a PR never selects the pods of another.
pub proof fn labels_tell_prs_apart(a: u32, b: u32)
    requires
        pr_labels(a) == pr_labels(b),
    ensures
        a == b,
{
    assert(pr_labels(a)[1] == pr_labels(b)[1]);
    crate::text::decimal_is_injective(a as nat, b as nat);
}

/// Deleting what is already gone succeeds: where the cluster has neither the deployment nor the
/// service, or has both, the deletion comes to its end, the deployment before the service.
pub proof fn deletion_ends(
    name: Seq<char>,
    first: Result<(), ClusterError>,
    second: Result<(), ClusterError>,
)
    requires
        first is Ok || first->Err_0.is_not_found(),
        second is Ok || second->Err_0.is_not_found(),
    ensures
        after_deletion(DeletionView::DeleteDeployment { name }, first) == (
        DeletionView::DeleteService { name }),
        after_deletion(
            after_deletion(DeletionView::DeleteDeployment { name }, first),
            second,
        ) == DeletionView::Done,
{
}

} // verus!
