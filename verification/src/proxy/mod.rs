//! The proxy: which players wait for which server, and where each of them goes.
pub mod backend_connector;
pub mod client_handler;
pub mod packet_forwarder;
pub mod registry;

use crate::config::ProxyConfig;
use crate::jenkins::JenkinsClient;
use crate::k8s::instance::{
    backend_name, backend_name_of, InstanceStateView, Moment, PrInstanceView,
};
use crate::k8s::{Instances, K8sManager};
use crate::proxy::registry::{BackendRegistry, RegistryView};
use crate::text::{decimal, numbered_with};
use std::collections::HashMap;
use vstd::prelude::*;

verus! {

/// The players who asked for a server, and the name of that server.
pub type Switches = Map<u128, Seq<char>>;

/// The proxy and all that it knows.
pub struct ProxyServer {
    config: ProxyConfig,
    backends: BackendRegistry,
    next_client_id: u64,
    /// Stores pending server switches: UUID -> target server name
    pending_switches: HashMap<u128, String>,
    /// K8s manager for PR instances (None if k8s not configured)
    k8s_manager: Option<K8sManager>,
    /// Jenkins client for triggering builds (None if jenkins not configured)
    jenkins_client: Option<JenkinsClient>,
}

/// What the proxy knows.
#[verifier::ext_equal]
pub struct ProxyView {
    /// The backends that players can choose from.
    pub backends: RegistryView,
    /// How many clients have come so far.
    pub clients: nat,
    /// The players who asked for a server.
    pub switches: Switches,
    /// The PR instances, where Kubernetes is configured.
    pub instances: Option<Instances>,
}

impl View for ProxyServer {
    type V = ProxyView;

    closed spec fn view(&self) -> ProxyView {
        ProxyView {
            backends: self.backends@,
            clients: self.next_client_id as nat,
            switches: self.pending_switches@.map_values(|s: String| s@),
            instances: match self.k8s_manager {
                Some(k8s) => Some(k8s@),
                None => None,
            },
        }
    }
}

/// Why no build was started for a PR.
#[derive(Debug, PartialEq, Eq, Clone, Copy, Structural)]
pub enum StartError {
    /// Jenkins is not configured.
    NoJenkins,
    /// Kubernetes is not configured.
    NoKubernetes,
    /// The PR has an instance.
    HasInstance { pr_number: u32 },
    /// A backend has the name of the PR.
    HasBackend { pr_number: u32 },
}

impl StartError {
    /// The reason in words.
    pub open spec fn text(self) -> Seq<char> {
        match self {
            StartError::NoJenkins => "Jenkins not configured"@,
            StartError::NoKubernetes => "Kubernetes not configured"@,
            StartError::HasInstance { pr_number } => "PR #"@ + decimal(pr_number as nat)
                + " is already being built or running"@,
            StartError::HasBackend { pr_number } => "PR #"@ + decimal(pr_number as nat)
                + " instance already exists"@,
        }
    }

    /// The reason in words.
    pub fn message(&self) -> (r: String)
        ensures
            r@ == self.text(),
    {
        match self {
            StartError::NoJenkins => "Jenkins not configured".to_owned(),
            StartError::NoKubernetes => "Kubernetes not configured".to_owned(),
            StartError::HasInstance { pr_number } => numbered_with(
                "PR #",
                *pr_number,
                " is already being built or running",
            ),
            StartError::HasBackend { pr_number } => numbered_with(
                "PR #",
                *pr_number,
                " instance already exists",
            ),
        }
    }
}

/// The first thing in the way of a build for a PR: Jenkins and Kubernetes must be configured, and
/// neither an instance nor a backend may be there for it.
pub open spec fn start_obstacle(
    has_jenkins: bool,
    instances: Option<Instances>,
    backends: RegistryView,
    pr_number: u32,
) -> Option<StartError> {
    if !has_jenkins {
        Some(StartError::NoJenkins)
    } else if instances is None {
        Some(StartError::NoKubernetes)
    } else if instances->0.contains_key(pr_number) {
        Some(StartError::HasInstance { pr_number })
    } else if backends.has(backend_name(pr_number)) {
        Some(StartError::HasBackend { pr_number })
    } else {
        None
    }
}

/// The message that a build is being started.
pub open spec fn starting_message(pr_number: u32) -> Seq<char> {
    "§e[Proxy] Starting build for PR #"@ + decimal(pr_number as nat) + "..."@
}

/// The message that a build waits in the queue.
pub open spec fn queued_message(pr_number: u32) -> Seq<char> {
    "§a[Proxy] PR #"@ + decimal(pr_number as nat)
        + " build queued. You will be notified when it's ready."@
}

/// The instance of a PR whose build waits in the queue.
pub open spec fn queued_instance(
    pr_number: u32,
    commit_hash: Seq<char>,
    commit_hash_short: Seq<char>,
    queue_url: Seq<char>,
    now: Moment,
) -> PrInstanceView {
    PrInstanceView {
        pr_number,
        commit_hash,
        commit_hash_short,
        state: InstanceStateView::Building { started_at: now, build_url: Some(queue_url) },
    }
}

/// The server that a player goes to: the one that was asked for, else the default server.
pub open spec fn target_of(switches: Switches, default_server: Seq<char>, uuid: u128) -> Seq<char> {
    if switches.contains_key(uuid) {
        switches[uuid]
    } else {
        default_server
    }
}

impl ProxyServer {
    /// The settings in force.
    pub closed spec fn settings(&self) -> ProxyConfig {
        self.config
    }

    /// The client for Jenkins, where it is configured.
    pub closed spec fn jenkins(&self) -> Option<JenkinsClient> {
        self.jenkins_client
    }

    /// The manager of the PR instances, where Kubernetes is configured.
    pub closed spec fn k8s(&self) -> Option<K8sManager> {
        self.k8s_manager
    }

    /// The backends that players can choose from.
    pub closed spec fn registry(&self) -> BackendRegistry {
        self.backends
    }

    /// A proxy with the backends of its settings, before the first client.
    pub fn new(
        config: ProxyConfig,
        k8s_manager: Option<K8sManager>,
        jenkins_client: Option<JenkinsClient>,
    ) -> (r: Self)
        ensures
            r@ == (ProxyView {
                backends: RegistryView { fixed: config.backends@, dynamic: Map::empty() },
                clients: 0,
                switches: Map::empty(),
                instances: match k8s_manager {
                    Some(k8s) => Some(k8s@),
                    None => None,
                },
            }),
            r.registry().static_listing() == config.backends.listing(),
            r.registry().dynamic_listing() == crate::backends::Listing::empty(),
            r.settings() == config,
            r.jenkins() == jenkins_client,
            r.k8s() == k8s_manager,
    {
        let backends = BackendRegistry::new(config.backends.clone());
        let r = ProxyServer {
            config,
            backends,
            next_client_id: 0,
            pending_switches: HashMap::new(),
            k8s_manager,
            jenkins_client,
        };
        assert(r@.switches =~= Switches::empty());
        r
    }

    /// Get a reference to the K8s manager
    pub fn k8s_manager(&self) -> (r: Option<&K8sManager>)
        ensures
            match r {
                Some(k8s) => self.k8s() == Some(*k8s) && self@.instances == Some(k8s@),
                None => self.k8s() is None && self@.instances is None,
            },
    {
        match &self.k8s_manager {
            Some(k8s) => Some(k8s),
            None => None,
        }
    }

    /// Get a reference to the Jenkins client
    pub fn jenkins_client(&self) -> (r: Option<&JenkinsClient>)
        ensures
            match r {
                Some(jenkins) => self.jenkins() == Some(*jenkins),
                None => self.jenkins() is None,
            },
    {
        match &self.jenkins_client {
            Some(jenkins) => Some(jenkins),
            None => None,
        }
    }

    /// Get a reference to the backend registry
    pub fn backends(&self) -> (r: &BackendRegistry)
        ensures
            *r == self.registry(),
            r@ == self@.backends,
    {
        &self.backends
    }

    /// Get a reference to the config
    pub fn config(&self) -> (r: &ProxyConfig)
        ensures
            *r == self.settings(),
    {
        &self.config
    }

    /// The server that a player asked for; the wish is met with this and forgotten.
    pub fn get_target_server(&mut self, uuid: u128) -> (r: Option<String>)
        ensures
            crate::config::optional_text(r) == (if old(self)@.switches.contains_key(uuid) {
                Some(old(self)@.switches[uuid])
            } else {
                None
            }),
            final(self)@ == (ProxyView {
                switches: old(self)@.switches.remove(uuid),
                ..old(self)@
            }),
            final(self).same_parts(old(self)),
    {
        broadcast use vstd::std_specs::hash::group_hash_axioms;

        let r = self.pending_switches.remove(&uuid);
        assert(self@.switches =~= old(self)@.switches.remove(uuid));
        r
    }

    /// Keeps the server that a player asked for, in place of any before it.
    pub fn set_target_server(&mut self, uuid: u128, server: String)
        ensures
            final(self)@ == (ProxyView {
                switches: old(self)@.switches.insert(uuid, server@),
                ..old(self)@
            }),
            final(self).same_parts(old(self)),
    {
        broadcast use vstd::std_specs::hash::group_hash_axioms;

        self.pending_switches.insert(uuid, server);
        assert(self@.switches =~= old(self)@.switches.insert(uuid, server@));
    }

    /// Whether the settings, the backends and the clients of other services are the same.
    pub open spec fn same_parts(&self, other: &ProxyServer) -> bool {
        &&& self.settings() == other.settings()
        &&& self.jenkins() == other.jenkins()
        &&& self.k8s() == other.k8s()
        &&& self.registry() == other.registry()
    }

    /// Where a player goes who has logged in: the name of the server, and its entry. A wish for a
    /// server is met with this and forgotten, even where there is no such server any more.
    pub fn route(&mut self, uuid: u128) -> (r: Result<(String, String, u16), RouteError>)
        ensures
            ({
                let name = target_of(
                    old(self)@.switches,
                    old(self).settings().default_server@,
                    uuid,
                );
                match r {
                    Ok((n, address, port)) => n@ == name && (old(self)@.backends.find(
                        name,
                    ) matches Some(b) && b.address == address@ && b.port == port),
                    Err(_) => old(self)@.backends.find(name) is None,
                }
            }),
            final(self)@ == (ProxyView {
                switches: old(self)@.switches.remove(uuid),
                ..old(self)@
            }),
            final(self).same_parts(old(self)),
    {
        let name = match self.get_target_server(uuid) {
            Some(target_server) => target_server,
            None => self.config.default_server.clone(),
        };
        let (address, port) = match self.backends.get(name.as_str()) {
            Some(b) => (b.address.clone(), b.port),
            None => return Err(RouteError::BackendNotFound),
        };
        Ok((name, address, port))
    }

    /// Start a PR instance build: the message that it is being started, or what is in the way
    pub fn start_pr(&self, pr_number: u32) -> (r: Result<String, StartError>)
        ensures
            match r {
                Ok(message) => start_obstacle(
                    self.jenkins() is Some,
                    self@.instances,
                    self@.backends,
                    pr_number,
                ) is None && message@ == starting_message(pr_number),
                Err(e) => start_obstacle(
                    self.jenkins() is Some,
                    self@.instances,
                    self@.backends,
                    pr_number,
                ) == Some(e),
            },
    {
        if self.jenkins_client.is_none() {
            return Err(StartError::NoJenkins);
        }
        match &self.k8s_manager {
            None => return Err(StartError::NoKubernetes),
            Some(k8s) => {
                if k8s.has_instance(pr_number) {
                    return Err(StartError::HasInstance { pr_number });
                }
            },
        }
        let name = backend_name_of(pr_number);
        if self.backends.contains(name.as_str()) {
            return Err(StartError::HasBackend { pr_number });
        }
        Ok(numbered_with("§e[Proxy] Starting build for PR #", pr_number, "..."))
    }

    /// Takes up a PR whose build waits in the queue, and gives the message that it does.
    pub fn build_queued(
        &mut self,
        pr_number: u32,
        commit_hash: String,
        commit_hash_short: String,
        queue_url: String,
        now: Moment,
    ) -> (r: Result<String, StartError>)
        ensures
            match r {
                Ok(message) => {
                    &&& old(self)@.instances is Some
                    &&& message@ == queued_message(pr_number)
                    &&& final(self)@ == (ProxyView {
                        instances: Some(
                            old(self)@.instances->0.insert(
                                pr_number,
                                queued_instance(
                                    pr_number,
                                    commit_hash@,
                                    commit_hash_short@,
                                    queue_url@,
                                    now,
                                ),
                            ),
                        ),
                        ..old(self)@
                    })
                    &&& final(self).k8s() is Some
                    &&& final(self).k8s()->0.settings() == old(self).k8s()->0.settings()
                },
                Err(e) => {
                    &&& old(self)@.instances is None
                    &&& e == StartError::NoKubernetes
                    &&& final(self)@ == old(self)@
                    &&& final(self).k8s() == old(self).k8s()
                },
            },
            final(self).settings() == old(self).settings(),
            final(self).jenkins() == old(self).jenkins(),
            final(self).registry() == old(self).registry(),
    {
        match &mut self.k8s_manager {
            Some(k8s) => {
                k8s.create_building_instance(
                    pr_number,
                    commit_hash,
                    commit_hash_short,
                    queue_url,
                    now,
                );
            },
            None => return Err(StartError::NoKubernetes),
        }
        Ok(
            numbered_with(
                "§a[Proxy] PR #",
                pr_number,
                " build queued. You will be notified when it's ready.",
            ),
        )
    }

    /// The manager of the PR instances and the backends, for a change to both; none where
    /// Kubernetes is not configured.
    pub fn instances_and_backends(&mut self) -> (r: Option<(&mut K8sManager, &mut BackendRegistry)>)
        ensures
            match r {
                Some((k8s, backends)) => {
                    &&& old(self).k8s() == Some(*k8s)
                    &&& old(self).registry() == *backends
                    &&& old(self)@.instances == Some(k8s@)
                    &&& old(self)@.backends == backends@
                    &&& final(self).k8s() == Some(*final(k8s))
                    &&& final(self).registry() == *final(backends)
                    &&& final(self)@ == (ProxyView {
                        instances: Some(final(k8s)@),
                        backends: final(backends)@,
                        ..old(self)@
                    })
                },
                None => old(self)@.instances is None && *final(self) == *old(self),
            },
            final(self).settings() == old(self).settings(),
            final(self).jenkins() == old(self).jenkins(),
    {
        match &mut self.k8s_manager {
            Some(k8s) => Some((k8s, &mut self.backends)),
            None => None,
        }
    }

    /// How many clients have come so far.
    pub fn client_count(&self) -> (r: u64)
        ensures
            r == self@.clients,
    {
        self.next_client_id
    }

    /// Counts a client that has come, and gives its number.
    pub fn handle_client(&mut self) -> (r: u64)
        requires
            old(self)@.clients < u64::MAX,
        ensures
            r == old(self)@.clients + 1,
            final(self)@ == (ProxyView { clients: r as nat, ..old(self)@ }),
            final(self).same_parts(old(self)),
    {
        self.next_client_id = self.next_client_id + 1;
        self.next_client_id
    }
}

/// Why a player could not be sent to a server.
#[derive(Debug, PartialEq, Eq, Clone, Copy, Structural)]
pub enum RouteError {
    /// No backend has the name of the server.
    BackendNotFound,
}

impl RouteError {
    /// The reason in words.
    pub fn message(&self) -> (r: String)
        ensures
            r@ == "Backend server not found"@,
    {
        "Backend server not found".to_owned()
    }
}

/// A PR whose build is in the queue, or whose instance is in any state, is not started again.
pub proof fn no_pr_is_started_twice(
    m: Instances,
    backends: RegistryView,
    pr_number: u32,
    commit_hash: Seq<char>,
    commit_hash_short: Seq<char>,
    queue_url: Seq<char>,
    now: Moment,
)
    ensures
        start_obstacle(
            true,
            Some(
                m.insert(
                    pr_number,
                    queued_instance(pr_number, commit_hash, commit_hash_short, queue_url, now),
                ),
            ),
            backends,
            pr_number,
        ) == Some(StartError::HasInstance { pr_number }),
        m.contains_key(pr_number) ==> start_obstacle(true, Some(m), backends, pr_number) == Some(
            StartError::HasInstance { pr_number },
        ),
{
}

/// A PR can be started exactly where nothing of it is there: Jenkins and Kubernetes are configured,
/// it has no instance, and no backend has its name.
pub proof fn absent_pr_can_be_started(m: Instances, backends: RegistryView, pr_number: u32)
    ensures
        start_obstacle(true, Some(m), backends, pr_number) is None <==> !m.contains_key(pr_number)
            && backends.find(backend_name(pr_number)) is None,
{
}

} // verus!
