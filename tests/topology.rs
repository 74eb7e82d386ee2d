use cerberus::classify::{classify_upstream, needs_anubis, should_materialize, UpstreamKind};
use cerberus::config::{
    AnubisConfig, Config, GlobalConfig, LoggingConfig, ProjectConfig, ProxyConfig, ProxyType,
    RouteConfig, RouteType, ServiceConfig, TlsConfig,
};
use cerberus::error::{CerberusError, ConfigError, TopologyError};
use cerberus::topology::{resolve, NodeKind, Segment, Topology};
use std::collections::HashMap;

fn proxy(name: &str, proxy_type: ProxyType, external_port: Option<u16>, layer: u8) -> ProxyConfig {
    ProxyConfig {
        name: name.to_string(),
        proxy_type,
        external_port,
        internal_port: 80,
        layer: Some(layer),
        instances: 1,
        algorithm: None,
        max_connections: None,
        default_upstream: None,
        special_routing_service: None,
        routes: vec![],
        build_context: None,
        build_dockerfile: None,
        entrypoint: None,
        volumes: vec![],
        networks: vec![],
        restart: None,
        secrets: vec![],
        configs: vec![],
        depends_on: None,
        healthcheck: None,
        logging: None,
        environment: HashMap::new(),
        env_file: vec![],
        expose: vec![],
        external_links: vec![],
        labels: HashMap::new(),
    }
}

fn service(name: &str, upstream: &str) -> ServiceConfig {
    ServiceConfig {
        name: name.to_string(),
        domain: "example.com".to_string(),
        upstream: upstream.to_string(),
        websocket: false,
        compress: true,
        max_body_size: "1m".to_string(),
        headers: HashMap::new(),
    }
}

fn config(name: &str, proxies: Vec<ProxyConfig>) -> Config {
    Config {
        project: ProjectConfig {
            name: name.to_string(),
            scaling: false,
        },
        global: GlobalConfig::default(),
        tls: TlsConfig::default(),
        anubis: AnubisConfig::default(),
        proxies,
        services: vec![],
        networks: HashMap::new(),
        volumes: HashMap::new(),
        secrets: HashMap::new(),
        configs: HashMap::new(),
        logging: LoggingConfig::default(),
    }
}

fn count(t: &Topology, kind: NodeKind) -> usize {
    t.nodes.iter().filter(|n| n.kind == kind).count()
}

#[test]
fn acme_caddy_single_front_node() {
    let c = config("acme", vec![proxy("edge", ProxyType::Caddy, Some(80), 1)]);
    let t = resolve(&c).expect("resolves");
    assert_eq!(count(&t, NodeKind::ProxyReplica), 1);
    assert_eq!(count(&t, NodeKind::Anubis), 0);
    assert_eq!(t.nodes[0].name, "edge");
    assert_eq!(t.nodes[0].segment, Segment::Front);
    assert_eq!(t.nodes[0].external_port, Some(80));
}

#[test]
fn acme_ddos_kind_without_anubis_yields_nothing() {
    let c = config("acme", vec![proxy("edge", ProxyType::Nginx, Some(80), 1)]);
    let t = resolve(&c).expect("resolves");
    assert_eq!(count(&t, NodeKind::ProxyReplica), 0);
    assert_eq!(count(&t, NodeKind::Anubis), 0);
    assert!(t.nodes.is_empty());
}

#[test]
fn high_difficulty_is_a_config_error() {
    let mut c = config("acme", vec![proxy("edge", ProxyType::Caddy, Some(80), 1)]);
    c.anubis.enabled = true;
    c.anubis.difficulty = 15;
    match resolve(&c) {
        Err(CerberusError::Config(ConfigError::DifficultyOutOfRange { difficulty })) => assert_eq!(difficulty, 15),
        other => panic!("unexpected: {:?}", other),
    }
}

#[test]
fn disabled_anubis_drops_every_ddos_proxy() {
    let c = config(
        "p",
        vec![
            proxy("a", ProxyType::Nginx, Some(80), 1),
            proxy("b", ProxyType::Nginx, None, 2),
            proxy("c", ProxyType::Traefik, Some(81), 1),
        ],
    );
    let t = resolve(&c).unwrap();
    assert_eq!(count(&t, NodeKind::Anubis), 0);
    let names: Vec<&str> = t.nodes.iter().map(|n| n.name.as_str()).collect();
    assert_eq!(names, vec!["c"]);
}

#[test]
fn enabled_anubis_with_ddos_proxy_adds_anubis() {
    let mut c = config(
        "p",
        vec![proxy("a", ProxyType::Nginx, Some(80), 1), proxy("h", ProxyType::HaProxy, Some(81), 1)],
    );
    c.anubis.enabled = true;
    let t = resolve(&c).unwrap();
    assert_eq!(count(&t, NodeKind::Anubis), 1);
    assert_eq!(count(&t, NodeKind::ProxyReplica), 2);
    let anubis = t.nodes.iter().find(|n| n.kind == NodeKind::Anubis).unwrap();
    assert_eq!(anubis.name, "anubis");
    assert_eq!(anubis.segment, Segment::Back);
    assert!(anubis.depends_on.is_empty());
}

#[test]
fn scaling_expands_replicas() {
    let mut c = config("p", vec![proxy("web", ProxyType::Caddy, Some(8080), 1)]);
    c.project.scaling = true;
    c.proxies[0].instances = 4;
    let t = resolve(&c).unwrap();
    let names: Vec<&str> = t.nodes.iter().map(|n| n.name.as_str()).collect();
    assert_eq!(names, vec!["web", "web-2", "web-3", "web-4"]);
    assert_eq!(t.nodes[0].external_port, Some(8080));
    for (k, n) in t.nodes.iter().enumerate() {
        assert_eq!(n.instance as usize, k + 1);
        if k > 0 {
            assert_eq!(n.external_port, None);
        }
    }
    assert!(t.collapsed.is_empty());
}

#[test]
fn scaling_off_collapses_instances() {
    let mut c = config("p", vec![proxy("web", ProxyType::Caddy, Some(8080), 1)]);
    c.proxies[0].instances = 3;
    let t = resolve(&c).unwrap();
    assert_eq!(t.nodes.len(), 1);
    assert_eq!(t.collapsed, vec!["web".to_string()]);
}

#[test]
fn layer_one_depends_on_layer_two() {
    let mut front = proxy("front", ProxyType::Caddy, Some(80), 1);
    front.default_upstream = Some("http://back:80".to_string());
    let back = proxy("back", ProxyType::Caddy, None, 2);
    let c = config("p", vec![front, back]);
    let t = resolve(&c).unwrap();
    assert_eq!(t.nodes[0].depends_on, vec!["back".to_string()]);
    assert!(t.nodes[1].depends_on.is_empty());
    assert_eq!(t.nodes[1].segment, Segment::Back);
}

#[test]
fn layer_one_depends_on_anubis_when_referenced() {
    let mut front = proxy("front", ProxyType::Nginx, Some(80), 1);
    front.default_upstream = Some("http://anubis:8080".to_string());
    let back = proxy("back", ProxyType::Nginx, None, 2);
    let mut c = config("p", vec![front, back]);
    c.anubis.enabled = true;
    let t = resolve(&c).unwrap();
    assert_eq!(t.nodes[0].depends_on, vec!["anubis".to_string()]);
    assert!(t.nodes[1].depends_on.is_empty());
    assert_eq!(t.nodes[2].kind, NodeKind::Anubis);
    assert_eq!(t.nodes[2].depends_on, vec!["back".to_string()]);
}

#[test]
fn route_upstream_mentioning_anubis_adds_edge() {
    let mut front = proxy("front", ProxyType::Nginx, Some(80), 1);
    front.routes = vec![RouteConfig {
        route_type: RouteType::Conditional,
        domain: "example.com".to_string(),
        upstream: "anubis:8080".to_string(),
        bypass_paths: vec!["/api".to_string()],
    }];
    let mut c = config("p", vec![front]);
    c.anubis.enabled = true;
    let t = resolve(&c).unwrap();
    assert_eq!(t.nodes[0].depends_on, vec!["anubis".to_string()]);
}

#[test]
fn segmentation_is_deterministic() {
    let mut front = proxy("front", ProxyType::Caddy, Some(80), 1);
    front.default_upstream = Some("http://back:80".to_string());
    let c = config("p", vec![front, proxy("back", ProxyType::Caddy, None, 2)]);
    let a = resolve(&c).unwrap();
    let b = resolve(&c).unwrap();
    assert_eq!(a.nodes.len(), b.nodes.len());
    for (x, y) in a.nodes.iter().zip(b.nodes.iter()) {
        assert_eq!(x.name, y.name);
        assert_eq!(x.segment, y.segment);
    }
    assert_eq!(a.networks[0].subnet, "10.100.0.0/16");
    assert_eq!(a.networks[1].subnet, "10.101.0.0/16");
    assert_eq!(a.networks[0].name, "p-front");
    assert_eq!(a.networks[1].name, "p-back");
    assert_eq!(b.networks[0].subnet, a.networks[0].subnet);
    assert_eq!(a.volumes, vec!["postgres_data", "redis_data", "nginx_logs"]);
}

#[test]
fn same_layer_chain_resolves() {
    let mut front = proxy("front", ProxyType::Caddy, Some(80), 1);
    front.layer = None;
    front.default_upstream = Some("http://back:80".to_string());
    let mut back = proxy("back", ProxyType::Caddy, None, 1);
    back.layer = None;
    let t = resolve(&config("p", vec![front, back])).expect("an acyclic chain resolves");
    assert_eq!(t.nodes[0].depends_on, vec!["back".to_string()]);
    assert!(t.nodes[1].depends_on.is_empty());
}

#[test]
fn mutual_references_are_a_cycle_error() {
    let mut a = proxy("alpha", ProxyType::Caddy, Some(80), 1);
    a.default_upstream = Some("http://beta:80".to_string());
    let mut b = proxy("beta", ProxyType::Caddy, Some(81), 1);
    b.default_upstream = Some("http://alpha:80".to_string());
    match resolve(&config("p", vec![a, b])) {
        Err(CerberusError::Topology(TopologyError::Cycle { from, to })) => {
            let mut pair = vec![from, to];
            pair.sort();
            assert_eq!(pair, vec!["alpha".to_string(), "beta".to_string()]);
        }
        other => panic!("unexpected: {:?}", other),
    }
}

#[test]
fn back_layer_referencing_anubis_is_a_cycle_error() {
    let front = proxy("front", ProxyType::Nginx, Some(80), 1);
    let mut back = proxy("back", ProxyType::Nginx, None, 2);
    back.default_upstream = Some("http://anubis:8080".to_string());
    let mut c = config("p", vec![front, back]);
    c.anubis.enabled = true;
    match resolve(&c) {
        Err(CerberusError::Topology(TopologyError::Cycle { from, to })) => {
            let mut pair = vec![from, to];
            pair.sort();
            assert_eq!(pair, vec!["anubis".to_string(), "back".to_string()]);
        }
        other => panic!("unexpected: {:?}", other),
    }
}

#[test]
fn cycle_error_skips_nodes_off_the_cycle() {
    let mut entry = proxy("entry", ProxyType::Caddy, Some(80), 1);
    entry.default_upstream = Some("http://alpha:80".to_string());
    let mut a = proxy("alpha", ProxyType::Caddy, None, 2);
    a.default_upstream = Some("http://beta:80".to_string());
    let mut b = proxy("beta", ProxyType::Caddy, None, 2);
    b.default_upstream = Some("http://alpha:80".to_string());
    match resolve(&config("p", vec![entry, a, b])) {
        Err(CerberusError::Topology(TopologyError::Cycle { from, to })) => {
            assert_ne!(from, "entry");
            assert_ne!(to, "entry");
        }
        other => panic!("unexpected: {:?}", other),
    }
}

#[test]
fn replica_name_colliding_is_a_duplicate_error() {
    let mut c = config(
        "p",
        vec![proxy("web", ProxyType::Caddy, Some(80), 1), proxy("web-2", ProxyType::Caddy, Some(81), 1)],
    );
    c.project.scaling = true;
    c.proxies[0].instances = 2;
    match resolve(&c) {
        Err(CerberusError::Topology(TopologyError::DuplicateName { name })) => assert_eq!(name, "web-2"),
        other => panic!("unexpected: {:?}", other),
    }
}

#[test]
fn internal_service_becomes_back_node() {
    let mut c = config("p", vec![]);
    c.services = vec![service("api", "http://api-backend:3000"), service("ext", "10.0.0.7:8080")];
    let t = resolve(&c).unwrap();
    assert_eq!(t.nodes.len(), 1);
    assert_eq!(t.nodes[0].name, "api");
    assert_eq!(t.nodes[0].kind, NodeKind::BackendService);
    assert_eq!(t.nodes[0].segment, Segment::Back);
}

#[test]
fn malformed_upstream_is_reported_with_declaration() {
    let mut c = config("p", vec![]);
    c.services = vec![service("api", "http://:3000")];
    match resolve(&c) {
        Err(CerberusError::Config(ConfigError::MalformedUpstream { declaration })) => assert_eq!(declaration, "api"),
        other => panic!("unexpected: {:?}", other),
    }
}

#[test]
fn classifier_distinguishes_addresses() {
    assert_eq!(classify_upstream("http://192.0.2.1:3000"), Some(UpstreamKind::ExternalAddress));
    assert_eq!(classify_upstream("10.0.0.1"), Some(UpstreamKind::ExternalAddress));
    assert_eq!(classify_upstream("http://internal-service:3000"), Some(UpstreamKind::InternalService));
    assert_eq!(classify_upstream("256.1.1.1:80"), Some(UpstreamKind::InternalService));
    assert_eq!(classify_upstream("01.2.3.4"), Some(UpstreamKind::InternalService));
    assert_eq!(classify_upstream("1.2.3"), Some(UpstreamKind::InternalService));
    assert_eq!(classify_upstream("https://"), None);
    assert_eq!(classify_upstream(":8080"), None);
}

#[test]
fn classifier_recognizes_ipv6_literals() {
    assert_eq!(classify_upstream("http://[2001:db8::1]:8080"), Some(UpstreamKind::ExternalAddress));
    assert_eq!(classify_upstream("[::1]:80"), Some(UpstreamKind::ExternalAddress));
    assert_eq!(classify_upstream("[::]"), Some(UpstreamKind::ExternalAddress));
    assert_eq!(classify_upstream("[1:2:3:4:5:6:7:8]:80"), Some(UpstreamKind::ExternalAddress));
    assert_eq!(classify_upstream("[1:2:3:4:5:6:7:8:9]"), None);
    assert_eq!(classify_upstream("[fe80::1::2]"), None);
    assert_eq!(classify_upstream("[g::1]"), None);
    assert_eq!(classify_upstream("https://[]:80"), None);
    assert_eq!(classify_upstream("http://[::ffff:192.0.2.1]:80"), Some(UpstreamKind::ExternalAddress));
    assert_eq!(classify_upstream("[::1.2.3.4]"), Some(UpstreamKind::ExternalAddress));
    assert_eq!(classify_upstream("[1:2:3:4:5:6:1.2.3.4]"), Some(UpstreamKind::ExternalAddress));
    assert_eq!(classify_upstream("[1:2:3:4:5:6:7:1.2.3.4]"), None);
    assert_eq!(classify_upstream("[::ffff:300.2.3.4]"), None);
}

#[test]
fn eligibility_table() {
    assert!(needs_anubis(ProxyType::Nginx));
    assert!(!needs_anubis(ProxyType::Caddy));
    assert!(!needs_anubis(ProxyType::HaProxy));
    assert!(!needs_anubis(ProxyType::Traefik));
    let p = proxy("x", ProxyType::Nginx, None, 1);
    assert!(!should_materialize(&p, false));
    assert!(should_materialize(&p, true));
    let q = proxy("y", ProxyType::Caddy, None, 1);
    assert!(should_materialize(&q, false));
}
