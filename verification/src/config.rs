//! Settings of the proxy.
use crate::backends::{by_name, BackendMap, Listing};
use vstd::prelude::*;

verus! {

/// Settings of the proxy.
#[derive(Debug)]
pub struct ProxyConfig {
    /// Address the proxy binds to
    pub bind_address: String,
    /// Port the proxy listens on
    pub bind_port: u16,
    /// Public address that clients should connect to (sent in Transfer packets)
    pub public_address: String,
    /// Enable online mode (Mojang authentication)
    pub online_mode: bool,
    /// Path to SQLite database file
    pub database_path: String,
    /// Default server for new connections
    pub default_server: String,
    /// Backend servers
    pub backends: BackendMap,
    /// Kubernetes settings (optional - enables PR instance management)
    pub kubernetes: Option<KubernetesConfig>,
    /// Jenkins settings (optional - enables PR builds)
    pub jenkins: Option<JenkinsConfig>,
    /// GitHub settings (optional - enables PR commit lookup)
    pub github: Option<GitHubConfig>,
}

/// Where and how PR instances run.
#[derive(Debug)]
pub struct KubernetesConfig {
    /// Kubernetes namespace for PR instances
    pub namespace: String,
    /// Docker registry for PR images (e.g., "localhost:5000/steel")
    pub registry: String,
    /// Instance auto-shutdown timeout in minutes
    pub instance_timeout_minutes: u64,
    /// Base image name
    pub image_name: String,
    /// Resource limits for PR instances
    pub resources: ResourceLimits,
    /// Node address for connecting to NodePort services (e.g., "127.0.0.1")
    pub node_address: String,
}

/// Limits on what one PR instance may use.
#[derive(Debug)]
pub struct ResourceLimits {
    /// Memory limit (e.g., "2Gi")
    pub memory: String,
    /// CPU limit (e.g., "1000m")
    pub cpu: String,
}

/// How to reach Jenkins.
#[derive(Debug)]
pub struct JenkinsConfig {
    /// Jenkins base URL (e.g., "https://jenkins.example.com")
    pub url: String,
    /// Job name for PR builds
    pub job_name: String,
    /// Username for authentication
    pub username: String,
    /// API token for authentication
    pub api_token: String,
    /// Build timeout in minutes
    pub build_timeout_minutes: u64,
}

/// How to reach the repository on GitHub.
#[derive(Debug)]
pub struct GitHubConfig {
    /// Repository owner (e.g., "octocat")
    pub owner: String,
    /// Repository name (e.g., "hello-world")
    pub repo: String,
    /// Personal access token (optional - for private repos or higher rate limits)
    pub token: Option<String>,
}

/// A backend server that players can be connected to.
#[derive(Debug)]
pub struct BackendServer {
    /// Server address
    pub address: String,
    /// Server port
    pub port: u16,
    /// Server description (optional)
    pub description: Option<String>,
}

/// The values in a [`BackendServer`].
#[verifier::ext_equal]
pub struct BackendServerView {
    pub address: Seq<char>,
    pub port: u16,
    pub description: Option<Seq<char>>,
}

/// The characters of an optional text.
pub open spec fn optional_text(t: Option<String>) -> Option<Seq<char>> {
    match t {
        Some(s) => Some(s@),
        None => None,
    }
}

impl View for BackendServer {
    type V = BackendServerView;

    open spec fn view(&self) -> BackendServerView {
        BackendServerView {
            address: self.address@,
            port: self.port,
            description: optional_text(self.description),
        }
    }
}

/// A copy of an optional text.
pub fn copy_optional(t: &Option<String>) -> (r: Option<String>)
    ensures
        r == *t,
{
    match t {
        Some(s) => Some(s.clone()),
        None => None,
    }
}

impl Clone for BackendServer {
    fn clone(&self) -> (r: Self)
        ensures
            r == *self,
    {
        BackendServer {
            address: self.address.clone(),
            port: self.port,
            description: copy_optional(&self.description),
        }
    }
}

impl Clone for ResourceLimits {
    fn clone(&self) -> (r: Self)
        ensures
            r == *self,
    {
        ResourceLimits { memory: self.memory.clone(), cpu: self.cpu.clone() }
    }
}

impl Clone for KubernetesConfig {
    fn clone(&self) -> (r: Self)
        ensures
            r == *self,
    {
        KubernetesConfig {
            namespace: self.namespace.clone(),
            registry: self.registry.clone(),
            instance_timeout_minutes: self.instance_timeout_minutes,
            image_name: self.image_name.clone(),
            resources: self.resources.clone(),
            node_address: self.node_address.clone(),
        }
    }
}

impl Clone for JenkinsConfig {
    fn clone(&self) -> (r: Self)
        ensures
            r == *self,
    {
        JenkinsConfig {
            url: self.url.clone(),
            job_name: self.job_name.clone(),
            username: self.username.clone(),
            api_token: self.api_token.clone(),
            build_timeout_minutes: self.build_timeout_minutes,
        }
    }
}

impl Clone for GitHubConfig {
    fn clone(&self) -> (r: Self)
        ensures
            r == *self,
    {
        GitHubConfig {
            owner: self.owner.clone(),
            repo: self.repo.clone(),
            token: copy_optional(&self.token),
        }
    }
}

impl Clone for ProxyConfig {
    fn clone(&self) -> (r: Self)
        ensures
            r.bind_address == self.bind_address,
            r.bind_port == self.bind_port,
            r.public_address == self.public_address,
            r.online_mode == self.online_mode,
            r.database_path == self.database_path,
            r.default_server == self.default_server,
            r.backends@ == self.backends@,
            r.backends.listing() == self.backends.listing(),
            r.kubernetes == self.kubernetes,
            r.jenkins == self.jenkins,
            r.github == self.github,
    {
        ProxyConfig {
            bind_address: self.bind_address.clone(),
            bind_port: self.bind_port,
            public_address: self.public_address.clone(),
            online_mode: self.online_mode,
            database_path: self.database_path.clone(),
            default_server: self.default_server.clone(),
            backends: self.backends.clone(),
            kubernetes: match &self.kubernetes {
                Some(c) => Some(c.clone()),
                None => None,
            },
            jenkins: match &self.jenkins {
                Some(c) => Some(c.clone()),
                None => None,
            },
            github: match &self.github {
                Some(c) => Some(c.clone()),
                None => None,
            },
        }
    }
}

/// The node address where none is set.
pub fn default_node_address() -> (r: String)
    ensures
        r@ == "127.0.0.1"@,
{
    "127.0.0.1".to_owned()
}

/// The database file where none is set.
pub fn default_database_path() -> (r: String)
    ensures
        r@ == "steel-proxy.db"@,
{
    "steel-proxy.db".to_owned()
}

/// The bind address where none is set.
pub fn default_bind_address() -> (r: String)
    ensures
        r@ == "0.0.0.0"@,
{
    "0.0.0.0".to_owned()
}

/// The port where none is set.
pub fn default_bind_port() -> (r: u16)
    ensures
        r == 25565,
{
    25565
}

/// The public address where none is set.
pub fn default_public_address() -> (r: String)
    ensures
        r@ == "localhost"@,
{
    "localhost".to_owned()
}

/// Whether online mode is on where nothing is set.
pub fn default_online_mode() -> (r: bool)
    ensures
        r,
{
    true
}

/// The minutes that an instance runs where none are set.
pub fn default_instance_timeout() -> (r: u64)
    ensures
        r == 30,
{
    30
}

/// The image name where none is set.
pub fn default_image_name() -> (r: String)
    ensures
        r@ == "steel-server"@,
{
    "steel-server".to_owned()
}

/// The memory limit where none is set.
pub fn default_memory_limit() -> (r: String)
    ensures
        r@ == "2Gi"@,
{
    "2Gi".to_owned()
}

/// The CPU limit where none is set.
pub fn default_cpu_limit() -> (r: String)
    ensures
        r@ == "1000m"@,
{
    "1000m".to_owned()
}

/// The minutes that a build may take where none are set.
pub fn default_build_timeout() -> (r: u64)
    ensures
        r == 15,
{
    15
}

impl Default for ResourceLimits {
    fn default() -> (r: Self)
        ensures
            r.memory@ == "2Gi"@,
            r.cpu@ == "1000m"@,
    {
        ResourceLimits { memory: default_memory_limit(), cpu: default_cpu_limit() }
    }
}

/// Why settings are refused.
#[derive(Debug)]
pub enum ConfigError {
    /// No backend is set.
    NoBackends,
    /// The default server, named here, is no backend.
    DefaultMissing { name: String },
}

impl ConfigError {
    /// The reason in words.
    pub open spec fn text(&self) -> Seq<char> {
        match self {
            ConfigError::NoBackends => "No backend servers configured"@,
            ConfigError::DefaultMissing { name } => "Default server '"@ + name@
                + "' not found in backends"@,
        }
    }

    /// The reason in words.
    pub fn message(&self) -> (r: String)
        ensures
            r@ == self.text(),
    {
        match self {
            ConfigError::NoBackends => "No backend servers configured".to_owned(),
            ConfigError::DefaultMissing { name } => {
                let mut s = "Default server '".to_owned();
                s.append(name.as_str());
                s.append("' not found in backends");
                s
            },
        }
    }
}

impl ProxyConfig {
    /// Whether a player who asks for no server in particular has one to go to.
    pub open spec fn is_usable(&self) -> bool {
        self.backends@.contains_key(self.default_server@)
    }

    /// Accepts settings that were read from a file, or says why they are refused: there must be
    /// backends, and the default server must be one of them.
    pub fn load(config: ProxyConfig) -> (r: Result<ProxyConfig, ConfigError>)
        ensures
            match r {
                Ok(c) => c == config && config.is_usable(),
                Err(ConfigError::NoBackends) => config.backends.listing().len() == 0,
                Err(ConfigError::DefaultMissing { name }) => config.backends.listing().len() > 0
                    && !config.is_usable() && name@ == config.default_server@,
            },
            r is Ok <==> config.is_usable(),
    {
        if config.backends.is_empty() {
            return Err(ConfigError::NoBackends);
        }
        if !config.backends.contains_key(config.default_server.as_str()) {
            return Err(ConfigError::DefaultMissing { name: config.default_server.clone() });
        }
        Ok(config)
    }

    /// The settings that a new settings file is filled with.
    pub fn create_default() -> (r: ProxyConfig)
        ensures
            r.bind_address@ == "0.0.0.0"@,
            r.bind_port == 25565,
            r.public_address@ == "localhost"@,
            r.online_mode,
            r.database_path@ == "steel-proxy.db"@,
            r.default_server@ == "lobby"@,
            r.backends.listing() == default_backends(),
            r.backends@ == by_name(default_backends()),
            r.kubernetes is None,
            r.jenkins is None,
            r.github is None,
            r.is_usable(),
    {
        proof {
            reveal_strlit("lobby");
            reveal_strlit("survival");
        }
        let mut backends = BackendMap::new();
        backends.insert(
            "lobby".to_owned(),
            BackendServer {
                address: "127.0.0.1".to_owned(),
                port: 25566,
                description: Some("Lobby server".to_owned()),
            },
        );
        backends.insert(
            "survival".to_owned(),
            BackendServer {
                address: "127.0.0.1".to_owned(),
                port: 25567,
                description: Some("Survival server".to_owned()),
            },
        );
        proof {
            assert("lobby"@.len() != "survival"@.len());
            assert(backends.listing() =~= default_backends());
        }
        ProxyConfig {
            bind_address: default_bind_address(),
            bind_port: default_bind_port(),
            public_address: default_public_address(),
            online_mode: default_online_mode(),
            database_path: default_database_path(),
            default_server: "lobby".to_owned(),
            backends,
            kubernetes: None,
            jenkins: None,
            github: None,
        }
    }
}

/// The backends in a new settings file.
pub open spec fn default_backends() -> Listing {
    seq![
        (
            "lobby"@,
            BackendServerView {
                address: "127.0.0.1"@,
                port: 25566,
                description: Some("Lobby server"@),
            },
        ),
        (
            "survival"@,
            BackendServerView {
                address: "127.0.0.1"@,
                port: 25567,
                description: Some("Survival server"@),
            },
        ),
    ]
}

} // verus!
