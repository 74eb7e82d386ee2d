//! The configuration model: project, proxies, services, Anubis and the
//! container-orchestration extras that are carried through unchanged.

use vstd::prelude::*;
use crate::classify::{classify_upstream, upstream_kind};
use crate::error::{CerberusError, ConfigError, ConfigProblem};
use crate::text::{blank, is_blank};

verus! {

/// Proxy software kind.
#[derive(Debug, Clone, Copy, PartialEq, Eq, Structural)]
pub enum ProxyType {
    Caddy,
    Nginx,
    HaProxy,
    Traefik,
}

/// The lowercase identifier of a proxy kind.
pub open spec fn proxy_type_name(t: ProxyType) -> Seq<char> {
    match t {
        ProxyType::Caddy => "caddy"@,
        ProxyType::Nginx => "nginx"@,
        ProxyType::HaProxy => "haproxy"@,
        ProxyType::Traefik => "traefik"@,
    }
}

impl ProxyType {
    /// Lowercase identifier of the kind, as written in configuration files.
    pub fn as_str(&self) -> (r: &'static str)
        ensures
            r@ == proxy_type_name(*self),
    {
        match self {
            ProxyType::Caddy => "caddy",
            ProxyType::Nginx => "nginx",
            ProxyType::HaProxy => "haproxy",
            ProxyType::Traefik => "traefik",
        }
    }
}


/// Route type for conditional routing.
#[derive(Debug, Clone, Copy, PartialEq, Eq, Structural)]
pub enum RouteType {
    /// Direct routing, bypassing DDoS protection.
    Direct,
    /// Conditional routing: some paths bypass DDoS protection.
    Conditional,
}

/// A routing rule of a proxy layer.
#[derive(Debug, Clone)]
pub struct RouteConfig {
    pub route_type: RouteType,
    /// Domain this route applies to.
    pub domain: String,
    /// Upstream destination.
    pub upstream: String,
    /// Paths that bypass DDoS protection (conditional routing).
    pub bypass_paths: Vec<String>,
}

/// Project-level settings.
#[derive(Debug, Clone)]
pub struct ProjectConfig {
    /// Project name; must not be blank.
    pub name: String,
    /// Whether `instances` of proxies is honoured.
    pub scaling: bool,
}

/// Global proxy settings.
#[derive(Debug, Clone)]
pub struct GlobalConfig {
    pub auto_https: String,
    pub admin: String,
}

/// TLS settings.
#[derive(Debug, Clone, Default)]
pub struct TlsConfig {
    pub enabled: bool,
    pub ca: Option<CaConfig>,
    pub certificates: Vec<CertificateConfig>,
}

/// Internal certificate authority.
#[derive(Debug, Clone)]
pub struct CaConfig {
    pub enabled: bool,
    pub root_cert: Option<String>,
    pub root_key: Option<String>,
}

/// One certificate for a domain pattern.
#[derive(Debug, Clone)]
pub struct CertificateConfig {
    pub domain: String,
    pub cert_file: String,
    pub key_file: String,
}

/// Container build settings.
#[derive(Debug, Clone, Default)]
pub struct DockerBuildConfig {
    pub context: String,
    pub dockerfile: Option<String>,
    pub args: std::collections::HashMap<String, String>,
    pub target: Option<String>,
    pub additional_contexts: std::collections::HashMap<String, String>,
}

/// Container start-order dependencies.
#[derive(Debug, Clone)]
pub enum DependsOn {
    /// Plain list of service names.
    Simple(Vec<String>),
    /// Service names with a condition each.
    Detailed(std::collections::HashMap<String, DependencyCondition>),
}

/// Condition attached to a dependency.
#[derive(Debug, Clone)]
pub struct DependencyCondition {
    pub condition: String,
    pub restart: Option<bool>,
}

/// Container health check.
#[derive(Debug, Clone, Default)]
pub struct HealthcheckConfig {
    pub test: Vec<String>,
    pub interval: String,
    pub timeout: String,
    pub retries: u32,
    pub start_period: Option<String>,
    pub start_interval: Option<String>,
}

/// Container logging driver.
#[derive(Debug, Clone, Default)]
pub struct LoggingDriverConfig {
    pub driver: String,
    pub options: std::collections::HashMap<String, String>,
}

/// Resource limits and reservations.
#[derive(Debug, Clone, Default)]
pub struct ResourcesConfig {
    pub limits: Option<ResourceLimits>,
    pub reservations: Option<ResourceLimits>,
}

/// One set of resource bounds.
#[derive(Debug, Clone, Default)]
pub struct ResourceLimits {
    pub cpus: Option<String>,
    pub memory: Option<String>,
    pub pids: Option<u32>,
}

/// The Anubis bot-mitigation component.
#[derive(Debug, Clone)]
pub struct AnubisConfig {
    pub enabled: bool,
    /// Listen address, such as `:8080`.
    pub bind: String,
    /// Upstream that passing traffic is forwarded to.
    pub target: String,
    /// Challenge difficulty; valid values lie in 1..=10.
    pub difficulty: u8,
    pub metrics_bind: String,
    pub image: String,
    pub serve_robots_txt: String,
    pub policy_fname: String,
    pub volumes: Vec<String>,
    pub networks: Vec<String>,
    pub restart: String,
}

/// A user-declared container network.
#[derive(Debug, Clone, Default)]
pub struct NetworkConfig {
    pub driver: String,
    pub driver_opts: std::collections::HashMap<String, String>,
    pub ipam: Option<IpamConfig>,
    pub external: bool,
    pub name: Option<String>,
    pub enable_ipv6: bool,
    pub labels: std::collections::HashMap<String, String>,
}

/// Address management of a network.
#[derive(Debug, Clone, Default)]
pub struct IpamConfig {
    pub driver: Option<String>,
    pub driver_opts: std::collections::HashMap<String, String>,
    pub config: Vec<IpamNetworkConfig>,
}

/// One address block of a network.
#[derive(Debug, Clone, Default)]
pub struct IpamNetworkConfig {
    pub subnet: Option<String>,
    pub ip_range: Option<String>,
    pub gateway: Option<String>,
    pub aux_addresses: std::collections::HashMap<String, String>,
}

/// A user-declared named volume.
#[derive(Debug, Clone, Default)]
pub struct VolumeConfig {
    pub driver: Option<String>,
    pub driver_opts: std::collections::HashMap<String, String>,
    pub external: bool,
    pub name: Option<String>,
    pub labels: std::collections::HashMap<String, String>,
}

/// A secret made available to containers.
#[derive(Debug, Clone)]
pub enum SecretConfig {
    File { file: String },
    Environment { environment: String },
    External { external: bool, name: Option<String> },
    Content { content: String },
}

/// A configuration object made available to containers.
#[derive(Debug, Clone)]
pub enum ConfigFileConfig {
    File { file: String },
    Environment { environment: String },
    External { external: bool, name: Option<String> },
    Content { content: String },
}

/// A container's reference to a secret.
#[derive(Debug, Clone)]
pub enum ServiceSecretRef {
    Simple(String),
    Detailed {
        source: String,
        target: Option<String>,
        mode: Option<u32>,
        uid: Option<String>,
        gid: Option<String>,
    },
}

/// A container's reference to a configuration object.
#[derive(Debug, Clone)]
pub enum ServiceConfigRef {
    Simple(String),
    Detailed {
        source: String,
        target: Option<String>,
        mode: Option<u32>,
        uid: Option<String>,
        gid: Option<String>,
    },
}

/// Restart policy of a replicated deployment.
#[derive(Debug, Clone, Default)]
pub struct RestartPolicyConfig {
    pub condition: Option<String>,
    pub delay: Option<String>,
    pub max_attempts: Option<u32>,
    pub window: Option<String>,
}

/// Placement of a replicated deployment.
#[derive(Debug, Clone, Default)]
pub struct PlacementConfig {
    pub constraints: Vec<String>,
    pub preferences: Vec<PlacementPreference>,
    pub max_replicas_per_node: Option<u32>,
}

/// One placement preference.
#[derive(Debug, Clone)]
pub struct PlacementPreference {
    pub spread: String,
}

/// A proxy declaration: one layer entry that may expand into replicas.
#[derive(Debug, Clone)]
pub struct ProxyConfig {
    /// Declared name; unique among all nodes.
    pub name: String,
    pub proxy_type: ProxyType,
    /// Host port published for the first replica, if any.
    pub external_port: Option<u16>,
    /// Port the proxy listens on inside its container.
    pub internal_port: u16,
    /// Layer number; `None` stands for layer 1.
    pub layer: Option<u8>,
    /// Requested replica count; at least 1.
    pub instances: u8,
    pub algorithm: Option<String>,
    pub max_connections: Option<u32>,
    /// Upstream for requests that no route matches.
    pub default_upstream: Option<String>,
    pub special_routing_service: Option<String>,
    pub routes: Vec<RouteConfig>,
    pub build_context: Option<String>,
    pub build_dockerfile: Option<String>,
    pub entrypoint: Option<String>,
    pub volumes: Vec<String>,
    pub networks: Vec<String>,
    pub restart: Option<String>,
    pub secrets: Vec<ServiceSecretRef>,
    pub configs: Vec<ServiceConfigRef>,
    pub depends_on: Option<DependsOn>,
    pub healthcheck: Option<HealthcheckConfig>,
    pub logging: Option<LoggingDriverConfig>,
    pub environment: std::collections::HashMap<String, String>,
    pub env_file: Vec<String>,
    pub expose: Vec<String>,
    pub external_links: Vec<String>,
    pub labels: std::collections::HashMap<String, String>,
}

/// A backend service reached through the proxies.
#[derive(Debug, Clone)]
pub struct ServiceConfig {
    pub name: String,
    pub domain: String,
    /// Upstream address: `host:port` or a URL.
    pub upstream: String,
    pub websocket: bool,
    pub compress: bool,
    pub max_body_size: String,
    /// Extra request and response headers.
    pub headers: std::collections::HashMap<String, String>,
}

/// Logging of the generator itself.
#[derive(Debug, Clone)]
pub struct LoggingConfig {
    pub level: String,
    pub format: String,
    pub output: String,
}

/// A whole configuration document.
#[derive(Debug, Clone)]
pub struct Config {
    pub project: ProjectConfig,
    pub global: GlobalConfig,
    pub tls: TlsConfig,
    pub anubis: AnubisConfig,
    pub proxies: Vec<ProxyConfig>,
    pub services: Vec<ServiceConfig>,
    pub networks: std::collections::HashMap<String, NetworkConfig>,
    pub volumes: std::collections::HashMap<String, VolumeConfig>,
    pub secrets: std::collections::HashMap<String, SecretConfig>,
    pub configs: std::collections::HashMap<String, ConfigFileConfig>,
    pub logging: LoggingConfig,
}

/// Default automatic-HTTPS setting.
pub fn default_auto_https() -> (r: String)
    ensures
        r@ == "off"@,
{
    String::from_str("off")
}

/// Default admin API setting.
pub fn default_admin() -> (r: String)
    ensures
        r@ == "off"@,
{
    String::from_str("off")
}

/// Default health-check interval.
pub fn default_healthcheck_interval() -> (r: String)
    ensures
        r@ == "30s"@,
{
    String::from_str("30s")
}

/// Default health-check timeout.
pub fn default_healthcheck_timeout() -> (r: String)
    ensures
        r@ == "10s"@,
{
    String::from_str("10s")
}

/// Default Anubis listen address.
pub fn default_anubis_bind() -> (r: String)
    ensures
        r@ == ":8080"@,
{
    String::from_str(":8080")
}

/// Default Anubis upstream.
pub fn default_anubis_target() -> (r: String)
    ensures
        r@ == "http://proxy-2:80"@,
{
    String::from_str("http://proxy-2:80")
}

/// Default Anubis metrics address.
pub fn default_anubis_metrics_bind() -> (r: String)
    ensures
        r@ == ":9090"@,
{
    String::from_str(":9090")
}

/// Default Anubis image.
pub fn default_anubis_image() -> (r: String)
    ensures
        r@ == "ghcr.io/techarohq/anubis:latest"@,
{
    String::from_str("ghcr.io/techarohq/anubis:latest")
}

/// Default for serving robots.txt from Anubis.
pub fn default_serve_robots_txt() -> (r: String)
    ensures
        r@ == "true"@,
{
    String::from_str("true")
}

/// Default path of the bot policy inside the Anubis container.
pub fn default_policy_fname() -> (r: String)
    ensures
        r@ == "/data/cfg/botPolicy.json"@,
{
    String::from_str("/data/cfg/botPolicy.json")
}

/// Default Anubis restart policy.
pub fn default_anubis_restart() -> (r: String)
    ensures
        r@ == "always"@,
{
    String::from_str("always")
}

/// Default network driver.
pub fn default_network_driver() -> (r: String)
    ensures
        r@ == "bridge"@,
{
    String::from_str("bridge")
}

/// Default request body limit of a service.
pub fn default_max_body_size() -> (r: String)
    ensures
        r@ == "1m"@,
{
    String::from_str("1m")
}

/// Default log level.
pub fn default_log_level() -> (r: String)
    ensures
        r@ == "INFO"@,
{
    String::from_str("INFO")
}

/// Default log format.
pub fn default_log_format() -> (r: String)
    ensures
        r@ == "json"@,
{
    String::from_str("json")
}

/// Default log destination.
pub fn default_log_output() -> (r: String)
    ensures
        r@ == "/var/log/cerberus.log"@,
{
    String::from_str("/var/log/cerberus.log")
}

/// Default health-check retry count.
pub fn default_healthcheck_retries() -> (r: u32)
    ensures
        r == 3,
{
    3
}

/// Default Anubis challenge difficulty.
pub fn default_anubis_difficulty() -> (r: u8)
    ensures
        r == 5,
{
    5
}

/// Default internal port of a proxy.
pub fn default_internal_port() -> (r: u16)
    ensures
        r == 80,
{
    80
}

/// Default replica count of a proxy.
pub fn default_instances() -> (r: u8)
    ensures
        r == 1,
{
    1
}

/// Default compression flag of a service.
pub fn default_compression() -> (r: bool)
    ensures
        r,
{
    true
}

impl Default for GlobalConfig {
    fn default() -> (r: Self)
        ensures
            r.auto_https@ == "off"@,
            r.admin@ == "off"@,
    {
        GlobalConfig { auto_https: default_auto_https(), admin: default_admin() }
    }
}

impl Default for AnubisConfig {
    fn default() -> (r: Self)
        ensures
            !r.enabled,
            r.bind@ == ":8080"@,
            r.target@ == "http://proxy-2:80"@,
            r.difficulty == 5,
            r.metrics_bind@ == ":9090"@,
            r.image@ == "ghcr.io/techarohq/anubis:latest"@,
            r.serve_robots_txt@ == "true"@,
            r.policy_fname@ == "/data/cfg/botPolicy.json"@,
            r.volumes@.len() == 0,
            r.networks@.len() == 0,
            r.restart@ == "always"@,
    {
        AnubisConfig {
            enabled: false,
            bind: default_anubis_bind(),
            target: default_anubis_target(),
            difficulty: default_anubis_difficulty(),
            metrics_bind: default_anubis_metrics_bind(),
            image: default_anubis_image(),
            serve_robots_txt: default_serve_robots_txt(),
            policy_fname: default_policy_fname(),
            volumes: Vec::new(),
            networks: Vec::new(),
            restart: default_anubis_restart(),
        }
    }
}

impl Default for LoggingConfig {
    fn default() -> (r: Self)
        ensures
            r.level@ == "INFO"@,
            r.format@ == "json"@,
            r.output@ == "/var/log/cerberus.log"@,
    {
        LoggingConfig {
            level: default_log_level(),
            format: default_log_format(),
            output: default_log_output(),
        }
    }
}


/// The upstream has a host, and a bracketed host is an IPv6 address.
pub open spec fn has_host(u: Seq<char>) -> bool {
    upstream_kind(u) is Some
}

/// Every route upstream has a host.
pub open spec fn routes_have_hosts(rs: Seq<RouteConfig>) -> bool {
    forall|i: int| 0 <= i < rs.len() ==> has_host(#[trigger] rs[i].upstream@)
}

/// The first problem of the proxy declared at `index`, in the order the
/// checks are made.
pub open spec fn proxy_problem(p: ProxyConfig, index: int) -> Option<ConfigProblem> {
    if is_blank(p.name@) {
        Some(ConfigProblem::EmptyProxyName { index })
    } else if p.external_port == Some(0u16) {
        Some(ConfigProblem::ZeroExternalPort { proxy: p.name@ })
    } else if p.internal_port == 0 {
        Some(ConfigProblem::ZeroInternalPort { proxy: p.name@ })
    } else if p.instances == 0 {
        Some(ConfigProblem::ZeroInstances { proxy: p.name@ })
    } else if (p.default_upstream is Some && !has_host(p.default_upstream->Some_0@))
        || !routes_have_hosts(p.routes@) {
        Some(ConfigProblem::MalformedUpstream { declaration: p.name@ })
    } else {
        None
    }
}

/// The first problem among the proxies from position `from` on.
pub open spec fn proxies_problem(ps: Seq<ProxyConfig>, from: int) -> Option<ConfigProblem>
    decreases ps.len() - from,
{
    if from < 0 || from >= ps.len() {
        None
    } else if proxy_problem(ps[from], from) is Some {
        proxy_problem(ps[from], from)
    } else {
        proxies_problem(ps, from + 1)
    }
}

/// The first problem of the service declared at `index`.
pub open spec fn service_problem(s: ServiceConfig, index: int) -> Option<ConfigProblem> {
    if is_blank(s.name@) {
        Some(ConfigProblem::EmptyServiceName { index })
    } else if is_blank(s.domain@) {
        Some(ConfigProblem::EmptyServiceDomain { service: s.name@ })
    } else if is_blank(s.upstream@) {
        Some(ConfigProblem::EmptyServiceUpstream { service: s.name@ })
    } else if !has_host(s.upstream@) {
        Some(ConfigProblem::MalformedUpstream { declaration: s.name@ })
    } else {
        None
    }
}

/// The first problem among the services from position `from` on.
pub open spec fn services_problem(ss: Seq<ServiceConfig>, from: int) -> Option<ConfigProblem>
    decreases ss.len() - from,
{
    if from < 0 || from >= ss.len() {
        None
    } else if service_problem(ss[from], from) is Some {
        service_problem(ss[from], from)
    } else {
        services_problem(ss, from + 1)
    }
}

/// The problem of the Anubis declaration: an enabled Anubis needs a
/// difficulty in 1..=10.
pub open spec fn anubis_problem(a: AnubisConfig) -> Option<ConfigProblem> {
    if a.enabled && (a.difficulty < 1 || a.difficulty > 10) {
        Some(ConfigProblem::DifficultyOutOfRange { difficulty: a.difficulty })
    } else {
        None
    }
}

/// The first problem of a configuration: project, then proxies, then
/// services, then Anubis; `None` when it is valid.
pub open spec fn config_problem(c: Config) -> Option<ConfigProblem> {
    if is_blank(c.project.name@) {
        Some(ConfigProblem::EmptyProjectName)
    } else if proxies_problem(c.proxies@, 0) is Some {
        proxies_problem(c.proxies@, 0)
    } else if services_problem(c.services@, 0) is Some {
        services_problem(c.services@, 0)
    } else {
        anubis_problem(c.anubis)
    }
}

/// A configuration with no problem.
pub open spec fn config_valid(c: Config) -> bool {
    config_problem(c) is None
}

/// Whether the upstream has a host.
fn upstream_has_host(u: &str) -> (r: bool)
    ensures
        r == has_host(u@),
{
    classify_upstream(u).is_some()
}

/// The first problem of one proxy declaration.
fn check_proxy(p: &ProxyConfig, index: usize) -> (r: Result<(), ConfigError>)
    ensures
        match r {
            Ok(_) => proxy_problem(*p, index as int) is None,
            Err(e) => proxy_problem(*p, index as int) == Some(e@),
        },
{
    if blank(p.name.as_str()) {
        return Err(ConfigError::EmptyProxyName { index });
    }
    if let Some(port) = p.external_port {
        if port == 0 {
            return Err(ConfigError::ZeroExternalPort { proxy: p.name.clone() });
        }
    }
    if p.internal_port == 0 {
        return Err(ConfigError::ZeroInternalPort { proxy: p.name.clone() });
    }
    if p.instances == 0 {
        return Err(ConfigError::ZeroInstances { proxy: p.name.clone() });
    }
    if let Some(u) = &p.default_upstream {
        if !upstream_has_host(u.as_str()) {
            return Err(ConfigError::MalformedUpstream { declaration: p.name.clone() });
        }
    }
    let n = p.routes.len();
    let mut i: usize = 0;
    while i < n
        invariant
            n == p.routes@.len(),
            i <= n,
            !is_blank(p.name@),
            p.external_port != Some(0u16),
            p.internal_port != 0,
            p.instances != 0,
            !(p.default_upstream is Some && !has_host(p.default_upstream->Some_0@)),
            forall|j: int| 0 <= j < i ==> has_host(#[trigger] p.routes@[j].upstream@),
        decreases n - i,
    {
        if !upstream_has_host(p.routes[i].upstream.as_str()) {
            assert(!has_host(p.routes@[i as int].upstream@));
            return Err(ConfigError::MalformedUpstream { declaration: p.name.clone() });
        }
        i = i + 1;
    }
    assert(proxy_problem(*p, index as int) is None);
    Ok(())
}

/// The first problem of one service declaration.
fn check_service(s: &ServiceConfig, index: usize) -> (r: Result<(), ConfigError>)
    ensures
        match r {
            Ok(_) => service_problem(*s, index as int) is None,
            Err(e) => service_problem(*s, index as int) == Some(e@),
        },
{
    if blank(s.name.as_str()) {
        return Err(ConfigError::EmptyServiceName { index });
    }
    if blank(s.domain.as_str()) {
        return Err(ConfigError::EmptyServiceDomain { service: s.name.clone() });
    }
    if blank(s.upstream.as_str()) {
        return Err(ConfigError::EmptyServiceUpstream { service: s.name.clone() });
    }
    if !upstream_has_host(s.upstream.as_str()) {
        return Err(ConfigError::MalformedUpstream { declaration: s.name.clone() });
    }
    Ok(())
}

impl Config {
    /// Checks the configuration and reports its first problem: a blank
    /// project name, then per proxy a blank name, a zero port or instance
    /// count or an upstream without host, then per service a blank name,
    /// domain or upstream or an upstream without host, and last an enabled
    /// Anubis whose difficulty lies outside 1..=10.
    pub fn validate(&self) -> (r: Result<(), CerberusError>)
        ensures
            match r {
                Ok(_) => config_valid(*self),
                Err(e) => e is Config && config_problem(*self) == Some(e->Config_0@),
            },
    {
        if blank(self.project.name.as_str()) {
            return Err(CerberusError::Config(ConfigError::EmptyProjectName));
        }
        let mut i: usize = 0;
        while i < self.proxies.len()
            invariant
                i <= self.proxies@.len(),
                !is_blank(self.project.name@),
                proxies_problem(self.proxies@, 0) == proxies_problem(self.proxies@, i as int),
            decreases self.proxies.len() - i,
        {
            match check_proxy(&self.proxies[i], i) {
                Ok(_) => {},
                Err(e) => {
                    assert(proxies_problem(self.proxies@, i as int) == proxy_problem(self.proxies@[i as int], i as int));
                    return Err(CerberusError::Config(e));
                },
            }
            i = i + 1;
        }
        let mut j: usize = 0;
        while j < self.services.len()
            invariant
                j <= self.services@.len(),
                !is_blank(self.project.name@),
                proxies_problem(self.proxies@, 0) is None,
                services_problem(self.services@, 0) == services_problem(self.services@, j as int),
            decreases self.services.len() - j,
        {
            match check_service(&self.services[j], j) {
                Ok(_) => {},
                Err(e) => {
                    assert(services_problem(self.services@, j as int) == service_problem(self.services@[j as int], j as int));
                    return Err(CerberusError::Config(e));
                },
            }
            j = j + 1;
        }
        if self.anubis.enabled && (self.anubis.difficulty < 1 || self.anubis.difficulty > 10) {
            return Err(CerberusError::Config(ConfigError::DifficultyOutOfRange { difficulty: self.anubis.difficulty }));
        }
        Ok(())
    }
}

} // verus!
