use cerberus::config::{
    default_admin, default_anubis_difficulty, default_instances, default_internal_port,
    default_log_level, AnubisConfig, Config, GlobalConfig, LoggingConfig, ProjectConfig,
    ProxyConfig, ProxyType, TlsConfig,
};
use cerberus::dockerfile::DockerfileGenerator;
use cerberus::proxy_config::ProxyConfigGenerator;
use cerberus::text::{blank, contains_text, decimal_string};
use std::collections::HashMap;

fn proxy(name: &str, proxy_type: ProxyType, external_port: Option<u16>) -> ProxyConfig {
    ProxyConfig {
        name: name.to_string(),
        proxy_type,
        external_port,
        internal_port: 8080,
        layer: None,
        instances: 1,
        algorithm: None,
        max_connections: None,
        default_upstream: None,
        special_routing_service: None,
        routes: vec![],
        build_context: None,
        build_dockerfile: None,
        entrypoint: None,
        volumes: vec![],
        networks: vec![],
        restart: None,
        secrets: vec![],
        configs: vec![],
        depends_on: None,
        healthcheck: None,
        logging: None,
        environment: HashMap::new(),
        env_file: vec![],
        expose: vec![],
        external_links: vec![],
        labels: HashMap::new(),
    }
}

fn config(proxies: Vec<ProxyConfig>) -> Config {
    Config {
        project: ProjectConfig {
            name: "demo".to_string(),
            scaling: false,
        },
        global: GlobalConfig::default(),
        tls: TlsConfig::default(),
        anubis: AnubisConfig::default(),
        proxies,
        services: vec![],
        networks: HashMap::new(),
        volumes: HashMap::new(),
        secrets: HashMap::new(),
        configs: HashMap::new(),
        logging: LoggingConfig::default(),
    }
}

#[test]
fn file_extensions() {
    assert_eq!(ProxyConfigGenerator::get_file_extension("caddy"), "Caddyfile");
    assert_eq!(ProxyConfigGenerator::get_file_extension("nginx"), "nginx.conf");
    assert_eq!(ProxyConfigGenerator::get_file_extension("haproxy"), "haproxy.cfg");
    assert_eq!(ProxyConfigGenerator::get_file_extension("traefik"), "traefik.yml");
    assert_eq!(ProxyConfigGenerator::get_file_extension("envoy"), "conf");
    assert_eq!(ProxyType::HaProxy.as_str(), "haproxy");
}

#[test]
fn service_conf_names() {
    assert_eq!(ProxyConfigGenerator::service_conf_name("my-web-app"), "my_web_app.conf");
    assert_eq!(ProxyConfigGenerator::service_conf_name(""), ".conf");
    let p = proxy("x", ProxyType::Nginx, None);
    assert_eq!(ProxyConfigGenerator::special_service(&p), "misskey");
}

#[test]
fn nginx_file_plan() {
    let mut c = config(vec![]);
    c.services = vec![
        cerberus::config::ServiceConfig {
            name: "misskey".to_string(),
            domain: "a.example".to_string(),
            upstream: "misskey:3000".to_string(),
            websocket: false,
            compress: true,
            max_body_size: "1m".to_string(),
            headers: HashMap::new(),
        },
        cerberus::config::ServiceConfig {
            name: "web-app".to_string(),
            domain: "b.example".to_string(),
            upstream: "web:80".to_string(),
            websocket: false,
            compress: true,
            max_body_size: "1m".to_string(),
            headers: HashMap::new(),
        },
    ];
    let front = proxy("front", ProxyType::Nginx, Some(80));
    let files: Vec<String> = ProxyConfigGenerator::nginx_files(&c, &front).into_iter().map(|f| f.file).collect();
    assert_eq!(files, vec!["default.conf", "proxy_params.conf"]);
    assert_eq!(ProxyConfigGenerator::regular_services(&c, &front), vec![1]);
    let mut deep = proxy("deep", ProxyType::Nginx, None);
    deep.layer = Some(2);
    let files: Vec<String> = ProxyConfigGenerator::nginx_files(&c, &deep).into_iter().map(|f| f.file).collect();
    assert_eq!(files, vec!["misskey.conf", "web_app.conf", "proxy_params.conf"]);
    assert_eq!(ProxyConfigGenerator::upstream_or_else(&deep, "proxy-2:80"), "proxy-2:80");
    assert_eq!(ProxyConfigGenerator::listen_port(&deep), 8080);
    assert_eq!(ProxyConfigGenerator::listen_port(&front), 80);
}

#[test]
fn multi_stage_dockerfile() {
    let c = config(vec![proxy("edge", ProxyType::Caddy, Some(80)), proxy("inner", ProxyType::Nginx, None)]);
    let text = DockerfileGenerator::new(&c).generate_multi_stage().unwrap();
    assert!(text.starts_with("# Multi-stage Dockerfile for demo\n"));
    assert!(text.contains("FROM caddy:2-alpine as edge\nCOPY --from=config /config/edge/ /etc/caddy/\nEXPOSE 80\n"));
    assert!(text.contains("CMD curl -f http://localhost:80/health"));
    assert!(text.contains("FROM nginx:alpine as inner\n"));
    assert!(text.contains("CMD curl -f http://localhost:8080/health"));
    assert!(text.contains("# Runtime stage (default)\nFROM caddy:2-alpine\nCOPY --from=edge / /\n"));
    assert!(text.ends_with("LABEL cerberus.generated=true\n"));
}

#[test]
fn multi_stage_without_proxies() {
    let c = config(vec![]);
    let text = DockerfileGenerator::new(&c).generate_multi_stage().unwrap();
    assert!(text.contains("# Runtime stage (default)\nFROM alpine:latest\n"));
}

#[test]
fn defaults() {
    assert_eq!(default_admin(), "off");
    assert_eq!(default_log_level(), "INFO");
    assert_eq!(default_anubis_difficulty(), 5);
    assert_eq!(default_internal_port(), 80);
    assert_eq!(default_instances(), 1);
    let a = AnubisConfig::default();
    assert!(!a.enabled);
    assert_eq!(a.bind, ":8080");
    assert_eq!(a.target, "http://proxy-2:80");
    assert_eq!(GlobalConfig::default().auto_https, "off");
    assert_eq!(LoggingConfig::default().format, "json");
}

#[test]
fn text_helpers() {
    assert_eq!(decimal_string(0), "0");
    assert_eq!(decimal_string(1024), "1024");
    assert!(contains_text("http://anubis:8080", "anubis"));
    assert!(!contains_text("http://proxy:80", "anubis"));
    assert!(contains_text("abc", ""));
    assert!(blank(""));
    assert!(blank(" \u{3000}\n"));
    assert!(!blank(" a "));
}
