use cerberus::config::{
    AnubisConfig, Config, GlobalConfig, LoggingConfig, ProjectConfig, ProxyConfig, ProxyType,
    ServiceConfig, TlsConfig,
};
use cerberus::error::{CerberusError, ConfigError};
use cerberus::Cerberus;
use std::collections::HashMap;

fn proxy(name: &str) -> ProxyConfig {
    ProxyConfig {
        name: name.to_string(),
        proxy_type: ProxyType::Caddy,
        external_port: Some(80),
        internal_port: 80,
        layer: None,
        instances: 1,
        algorithm: None,
        max_connections: None,
        default_upstream: None,
        special_routing_service: None,
        routes: vec![],
        build_context: None,
        build_dockerfile: None,
        entrypoint: None,
        volumes: vec![],
        networks: vec![],
        restart: None,
        secrets: vec![],
        configs: vec![],
        depends_on: None,
        healthcheck: None,
        logging: None,
        environment: HashMap::new(),
        env_file: vec![],
        expose: vec![],
        external_links: vec![],
        labels: HashMap::new(),
    }
}

fn service(name: &str, domain: &str, upstream: &str) -> ServiceConfig {
    ServiceConfig {
        name: name.to_string(),
        domain: domain.to_string(),
        upstream: upstream.to_string(),
        websocket: false,
        compress: true,
        max_body_size: "1m".to_string(),
        headers: HashMap::new(),
    }
}

fn valid() -> Config {
    Config {
        project: ProjectConfig {
            name: "test-project".to_string(),
            scaling: false,
        },
        global: GlobalConfig::default(),
        tls: TlsConfig::default(),
        anubis: AnubisConfig::default(),
        proxies: vec![proxy("test-proxy")],
        services: vec![service("test-service", "example.com", "http://192.0.2.1:3000")],
        networks: HashMap::new(),
        volumes: HashMap::new(),
        secrets: HashMap::new(),
        configs: HashMap::new(),
        logging: LoggingConfig::default(),
    }
}

fn err(c: &Config) -> ConfigError {
    match c.validate() {
        Err(CerberusError::Config(e)) => e,
        other => panic!("unexpected: {:?}", other),
    }
}

fn load_like(project: &str, proxy_name: &str, external_port: u16) -> Config {
    let mut c = valid();
    c.project.name = project.to_string();
    c.proxies[0].name = proxy_name.to_string();
    c.proxies[0].external_port = Some(external_port);
    c.services = vec![service("test-service", "example.com", "http://192.0.2.1:3000")];
    c
}

#[test]
fn test_config_validation_empty_project_name() {
    let config = load_like("", "test-proxy", 80);
    let result = config.validate();

    assert!(result.is_err());
    assert!(result.unwrap_err().message().contains("Project name cannot be empty"));
}

#[test]
fn test_config_validation_empty_proxy_name() {
    let config = load_like("test-project", "", 80);
    let result = config.validate();

    assert!(result.is_err());
    assert!(result.unwrap_err().message().contains("name cannot be empty"));
}

#[test]
fn test_config_validation_zero_port() {
    let config = load_like("test-project", "test-proxy", 0);
    let result = config.validate();

    assert!(result.is_err());
    assert!(result.unwrap_err().message().contains("external_port must be greater than 0"));
}

#[test]
fn test_config_validation_high_anubis_difficulty() {
    let mut config = load_like("test-project", "test-proxy", 80);
    config.anubis.enabled = true;
    config.anubis.difficulty = 15;
    let result = config.validate();

    assert!(result.is_err());
    assert!(result.unwrap_err().message().contains("difficulty must be between 1 and 10"));
}

#[test]
fn messages_name_the_declaration() {
    let e = CerberusError::Config(ConfigError::EmptyProxyName { index: 12 });
    assert_eq!(e.message(), "Validation error: Proxy 12 name cannot be empty");
    let e = CerberusError::Topology(cerberus::TopologyError::Cycle { from: "a".to_string(), to: "b".to_string() });
    assert_eq!(e.message(), "Topology error: a cannot depend on b: the dependency closes a cycle");
}

#[test]
fn valid_config_passes() {
    assert!(valid().validate().is_ok());
}

#[test]
fn blank_project_name() {
    let mut c = valid();
    c.project.name = " \t".to_string();
    assert!(matches!(err(&c), ConfigError::EmptyProjectName));
}

#[test]
fn blank_proxy_name_reports_index() {
    let mut c = valid();
    c.proxies.push(proxy(""));
    assert!(matches!(err(&c), ConfigError::EmptyProxyName { index: 1 }));
}

#[test]
fn zero_ports_and_instances() {
    let mut c = valid();
    c.proxies[0].external_port = Some(0);
    assert!(matches!(err(&c), ConfigError::ZeroExternalPort { proxy } if proxy == "test-proxy"));
    let mut c = valid();
    c.proxies[0].internal_port = 0;
    assert!(matches!(err(&c), ConfigError::ZeroInternalPort { proxy } if proxy == "test-proxy"));
    let mut c = valid();
    c.proxies[0].instances = 0;
    assert!(matches!(err(&c), ConfigError::ZeroInstances { proxy } if proxy == "test-proxy"));
}

#[test]
fn proxy_upstream_without_host() {
    let mut c = valid();
    c.proxies[0].default_upstream = Some("http:///path".to_string());
    assert!(matches!(err(&c), ConfigError::MalformedUpstream { declaration } if declaration == "test-proxy"));
}

#[test]
fn service_problems_in_order() {
    let mut c = valid();
    c.services.push(service("", "d", "u:1"));
    assert!(matches!(err(&c), ConfigError::EmptyServiceName { index: 1 }));
    let mut c = valid();
    c.services[0].domain = "".to_string();
    assert!(matches!(err(&c), ConfigError::EmptyServiceDomain { service } if service == "test-service"));
    let mut c = valid();
    c.services[0].upstream = "  ".to_string();
    assert!(matches!(err(&c), ConfigError::EmptyServiceUpstream { service } if service == "test-service"));
}

#[test]
fn difficulty_bounds() {
    let mut c = valid();
    c.anubis.enabled = true;
    c.anubis.difficulty = 0;
    assert!(matches!(err(&c), ConfigError::DifficultyOutOfRange { difficulty: 0 }));
    c.anubis.difficulty = 11;
    assert!(matches!(err(&c), ConfigError::DifficultyOutOfRange { difficulty: 11 }));
    c.anubis.difficulty = 10;
    assert!(c.validate().is_ok());
    c.anubis.enabled = false;
    c.anubis.difficulty = 15;
    assert!(c.validate().is_ok());
}

#[test]
fn project_problem_comes_first() {
    let mut c = valid();
    c.project.name = "".to_string();
    c.proxies[0].external_port = Some(0);
    assert!(matches!(err(&c), ConfigError::EmptyProjectName));
}

#[test]
fn cerberus_new_validates() {
    assert!(Cerberus::new(valid(), "built".to_string()).is_ok());
    let mut c = valid();
    c.anubis.enabled = true;
    c.anubis.difficulty = 15;
    assert!(Cerberus::new(c, "built".to_string()).is_err());
}

#[test]
fn artifacts_follow_anubis_presence() {
    let g = Cerberus::new(valid(), "built".to_string()).unwrap();
    let a = g.artifacts().unwrap();
    let paths: Vec<&str> = a.iter().map(|x| x.path.as_str()).collect();
    assert_eq!(paths, vec!["docker-compose.yaml", "Dockerfile.multi-stage"]);

    let mut c = valid();
    c.anubis.enabled = true;
    c.proxies[0].proxy_type = ProxyType::Nginx;
    let g = Cerberus::new(c, "built".to_string()).unwrap();
    let a = g.artifacts().unwrap();
    let paths: Vec<&str> = a.iter().map(|x| x.path.as_str()).collect();
    assert_eq!(paths, vec!["docker-compose.yaml", "Dockerfile.multi-stage", "anubis/botPolicy.json", "anubis/.env"]);
    assert!(a[3].content.starts_with("ANUBIS_BIND=:8080\nANUBIS_TARGET="));
    assert!(!a[3].content.ends_with('\n'));
}
