use cerberus::compose::DockerComposeGenerator;
use cerberus::config::{
    AnubisConfig, Config, GlobalConfig, LoggingConfig, ProjectConfig, ProxyConfig, ProxyType,
    ServiceConfig, TlsConfig,
};
use std::collections::HashMap;

fn create_test_proxy(name: &str, proxy_type: ProxyType, external_port: u16) -> ProxyConfig {
    ProxyConfig {
        name: name.to_string(),
        proxy_type,
        external_port: Some(external_port),
        internal_port: 80,
        layer: Some(1),
        instances: 1,
        algorithm: None,
        max_connections: None,
        default_upstream: None,
        special_routing_service: None,
        routes: vec![],
        build_context: None,
        build_dockerfile: None,
        entrypoint: None,
        volumes: vec![],
        networks: vec![],
        restart: None,
        secrets: vec![],
        configs: vec![],
        depends_on: None,
        healthcheck: None,
        logging: None,
        environment: HashMap::new(),
        env_file: vec![],
        expose: vec![],
        external_links: vec![],
        labels: HashMap::new(),
    }
}

fn create_minimal_config() -> Config {
    Config {
        project: ProjectConfig {
            name: "test-project".to_string(),
            scaling: false,
        },
        global: GlobalConfig::default(),
        tls: TlsConfig::default(),
        anubis: AnubisConfig::default(),
        proxies: vec![create_test_proxy("test-proxy", ProxyType::Caddy, 80)],
        services: vec![ServiceConfig {
            name: "test-service".to_string(),
            domain: "test.example.com".to_string(),
            upstream: "http://192.0.2.1:3000".to_string(),
            websocket: false,
            compress: true,
            max_body_size: "1m".to_string(),
            headers: HashMap::new(),
        }],
        networks: HashMap::new(),
        volumes: HashMap::new(),
        secrets: HashMap::new(),
        configs: HashMap::new(),
        logging: LoggingConfig::default(),
    }
}

fn create_anubis_enabled_config() -> Config {
    let mut config = create_minimal_config();
    config.anubis.enabled = true;
    config.anubis.bind = ":8080".to_string();
    config.anubis.target = "http://proxy-2:80".to_string();
    config.anubis.difficulty = 5;
    config.anubis.metrics_bind = ":9090".to_string();
    config
}

fn create_multi_proxy_config() -> Config {
    let mut config = create_minimal_config();
    let mut proxy1 = create_test_proxy("proxy-layer1", ProxyType::Caddy, 80);
    proxy1.default_upstream = Some("http://anubis:8080".to_string());

    let mut proxy2 = create_test_proxy("proxy-layer2", ProxyType::Caddy, 80);
    proxy2.layer = Some(2);

    config.proxies = vec![proxy1, proxy2];
    config
}

fn create_config_with_proxy_type(proxy_type: ProxyType) -> Config {
    let mut config = create_minimal_config();
    config.proxies[0].proxy_type = proxy_type;
    config
}

fn create_mixed_proxy_config() -> Config {
    let mut config = create_minimal_config();
    config.proxies = vec![
        create_test_proxy("nginx-proxy", ProxyType::Nginx, 80),
        create_test_proxy("caddy-proxy", ProxyType::Caddy, 81),
        create_test_proxy("haproxy-proxy", ProxyType::HaProxy, 82),
        create_test_proxy("traefik-proxy", ProxyType::Traefik, 83),
    ];
    config
}

/// A simple string-based extraction of one service section.
fn extract_service_section(yaml: &str, service_name: &str) -> String {
    let lines: Vec<&str> = yaml.lines().collect();
    let mut service_lines = Vec::new();
    let mut in_service = false;
    let mut service_indent = 0;

    for line in lines {
        if line.trim_start().starts_with(&format!("{service_name}:")) {
            in_service = true;
            service_indent = line.len() - line.trim_start().len();
            service_lines.push(line);
        } else if in_service {
            let current_indent = line.len() - line.trim_start().len();
            if !line.trim().is_empty() && current_indent <= service_indent {
                break;
            }
            service_lines.push(line);
        }
    }

    service_lines.join("\n")
}

#[test]
fn test_minimal_docker_compose_generation() {
    let config = create_minimal_config();
    let generator = DockerComposeGenerator::new(&config);

    let result = generator.generate().expect("Generation should succeed");

    assert!(result.contains("services:"));
    assert!(result.contains("networks:"));
    assert!(result.contains("volumes:"));

    assert!(result.contains("test-proxy:"));
    assert!(result.contains("image: caddy:alpine"));
    assert!(result.contains("container_name: test-proxy"));
    assert!(result.contains("- \"80:80\""));

    assert!(result.contains("test-project-front"));
    assert!(result.contains("test-project-back"));

    assert!(!result.contains("anubis:"));
}

#[test]
fn test_anubis_enabled_docker_compose_generation() {
    let mut config = create_anubis_enabled_config();
    config.proxies[0].proxy_type = ProxyType::Nginx;
    let generator = DockerComposeGenerator::new(&config);

    let result = generator.generate().expect("Generation should succeed");

    assert!(result.contains("anubis:"));
    assert!(result.contains("image: ghcr.io/techarohq/anubis:latest"));
    assert!(result.contains("container_name: anubis"));

    assert!(result.contains("BIND=:8080"));
    assert!(result.contains("DIFFICULTY=5"));
    assert!(result.contains("TARGET=http://proxy-2:80"));
    assert!(result.contains("METRICS_BIND=:9090"));
}

#[test]
fn test_multi_proxy_docker_compose_generation() {
    let config = create_multi_proxy_config();
    let generator = DockerComposeGenerator::new(&config);

    let result = generator.generate().expect("Generation should succeed");

    assert!(result.contains("proxy-layer1:"));
    assert!(result.contains("proxy-layer2:"));

    let caddy_count = result.matches("image: caddy:alpine").count();
    assert_eq!(caddy_count, 2);
}

#[test]
fn test_proxy_dependencies_no_anubis() {
    let config = create_minimal_config();
    let generator = DockerComposeGenerator::new(&config);

    let result = generator.generate().expect("Generation should succeed");

    let proxy_section = extract_service_section(&result, "test-proxy");
    assert!(!proxy_section.contains("depends_on:"));
}

#[test]
fn test_proxy_dependencies_with_anubis() {
    let mut config = create_multi_proxy_config();
    config.anubis.enabled = true;
    config.proxies[0].proxy_type = ProxyType::Nginx;
    config.proxies[1].proxy_type = ProxyType::Nginx;
    let generator = DockerComposeGenerator::new(&config);

    let result = generator.generate().expect("Generation should succeed");

    let proxy1_section = extract_service_section(&result, "proxy-layer1");
    if proxy1_section.contains("anubis:8080") {
        assert!(proxy1_section.contains("depends_on:"));
        assert!(proxy1_section.contains("- anubis"));
    }

    let proxy2_section = extract_service_section(&result, "proxy-layer2");
    assert!(!proxy2_section.contains("depends_on:"));

    let anubis_section = extract_service_section(&result, "anubis");
    if config.proxies.len() > 1 {
        assert!(anubis_section.contains("depends_on:"));
        assert!(anubis_section.contains("- proxy-layer2"));
    }
}

#[test]
fn test_scaling_configuration() {
    let mut config = create_minimal_config();
    config.project.scaling = true;
    config.proxies[0].instances = 3;

    let generator = DockerComposeGenerator::new(&config);
    let result = generator.generate().expect("Generation should succeed");

    assert!(result.contains("test-proxy:"));
    assert!(result.contains("test-proxy-2:"));
    assert!(result.contains("test-proxy-3:"));

    assert!(result.contains("INSTANCE_ID=2"));
    assert!(result.contains("INSTANCE_ID=3"));
}

#[test]
fn test_service_generation_external_ip() {
    let mut config = create_minimal_config();
    config.services[0].upstream = "http://192.0.2.1:3000".to_string();

    let generator = DockerComposeGenerator::new(&config);
    let result = generator.generate().expect("Generation should succeed");

    assert!(!result.contains("test-service:"));
}

#[test]
fn test_service_generation_internal_service() {
    let mut config = create_minimal_config();
    config.services[0].upstream = "http://internal-service:3000".to_string();

    let generator = DockerComposeGenerator::new(&config);
    let result = generator.generate().expect("Generation should succeed");

    assert!(result.contains("test-service:"));
    assert!(result.contains("image: alpine:latest"));
    assert!(result.contains("container_name: test-service"));
}

#[test]
fn test_environment_variables() {
    let config = create_minimal_config();
    let generator = DockerComposeGenerator::new(&config);

    let result = generator.generate().expect("Generation should succeed");

    let proxy_section = extract_service_section(&result, "test-proxy");
    assert!(proxy_section.contains("PROXY_LAYER=1"));
    assert!(proxy_section.contains("MAX_CONNECTIONS=1024"));
}

#[test]
fn test_healthcheck_configuration() {
    let mut config = create_minimal_config();
    config.services[0].upstream = "http://internal-service:3000".to_string();
    let generator = DockerComposeGenerator::new(&config);

    let result = generator.generate().expect("Generation should succeed");

    assert!(result.contains("healthcheck:"));
    assert!(result.contains("test:"));
    assert!(result.contains("interval: 30s"));
    assert!(result.contains("timeout: 10s"));
    assert!(result.contains("retries: 3"));
}

#[test]
fn test_labels_configuration() {
    let config = create_minimal_config();
    let generator = DockerComposeGenerator::new(&config);

    let result = generator.generate().expect("Generation should succeed");

    assert!(result.contains("labels:"));
    assert!(result.contains("cerberus.service=proxy"));
    assert!(result.contains("cerberus.layer=1"));
    assert!(result.contains("cerberus.type=caddy"));
}

#[test]
fn tests_test_volumes_configuration() {
    let config = create_minimal_config();
    let generator = DockerComposeGenerator::new(&config);

    let result = generator.generate().expect("Generation should succeed");

    assert!(result.contains("./proxy-configs/test-proxy:/etc/caddy:ro"));
    assert!(result.contains("./built/logs:/var/log/caddy:rw"));

    assert!(result.contains("postgres_data:"));
    assert!(result.contains("redis_data:"));
    assert!(result.contains("nginx_logs:"));
}

#[test]
fn tests_test_networks_configuration() {
    let config = create_minimal_config();
    let generator = DockerComposeGenerator::new(&config);

    let result = generator.generate().expect("Generation should succeed");

    assert!(result.contains("networks:"));
    assert!(result.contains("front-net:"));
    assert!(result.contains("back-net:"));
    assert!(result.contains("driver: bridge"));
    assert!(result.contains("subnet: 10.100.0.0/16"));
    assert!(result.contains("subnet: 10.101.0.0/16"));
}

#[test]
fn test_generation_with_empty_proxies() {
    let mut config = create_minimal_config();
    config.proxies.clear();

    let generator = DockerComposeGenerator::new(&config);
    let result = generator.generate().expect("Generation should succeed");

    assert!(result.contains("services:"));
    assert!(result.contains("networks:"));
    assert!(result.contains("volumes:"));

    assert!(!result.contains("image: caddy:alpine"));
}

#[test]
fn test_yaml_syntax_validity() {
    let config = create_anubis_enabled_config();
    let generator = DockerComposeGenerator::new(&config);

    let result = generator.generate().expect("Generation should succeed");

    assert!(!result.contains("depends_on:\n\n"));
    assert!(!result.contains(": true"));
    assert!(!result.contains(": false"));

    let _parsed: serde_yaml::Value =
        serde_yaml::from_str(&result).expect("Generated YAML should be valid");
}

#[test]
fn test_nginx_with_anubis_enabled() {
    let mut config = create_config_with_proxy_type(ProxyType::Nginx);
    config.anubis.enabled = true;
    let generator = DockerComposeGenerator::new(&config);

    let result = generator.generate().expect("Generation should succeed");

    assert!(result.contains("test-proxy:"));
    assert!(result.contains("image: nginx:alpine"));
    assert!(result.contains("anubis:"));
}

#[test]
fn test_nginx_with_anubis_disabled() {
    let mut config = create_config_with_proxy_type(ProxyType::Nginx);
    config.anubis.enabled = false;
    let generator = DockerComposeGenerator::new(&config);

    let result = generator.generate().expect("Generation should succeed");

    assert!(!result.contains("test-proxy:"));
    assert!(!result.contains("anubis:"));
}

#[test]
fn test_caddy_always_generates_simple_proxy() {
    let mut config = create_config_with_proxy_type(ProxyType::Caddy);
    config.anubis.enabled = false;
    let generator = DockerComposeGenerator::new(&config);

    let result = generator.generate().expect("Generation should succeed");

    assert!(result.contains("test-proxy:"));
    assert!(result.contains("image: caddy:alpine"));
    assert!(!result.contains("anubis:"));
}

#[test]
fn test_haproxy_always_generates_simple_proxy() {
    let mut config = create_config_with_proxy_type(ProxyType::HaProxy);
    config.anubis.enabled = true;
    let generator = DockerComposeGenerator::new(&config);

    let result = generator.generate().expect("Generation should succeed");

    assert!(result.contains("test-proxy:"));
    assert!(result.contains("image: haproxy:alpine"));
    assert!(!result.contains("anubis:"));
}

#[test]
fn test_traefik_always_generates_simple_proxy() {
    let mut config = create_config_with_proxy_type(ProxyType::Traefik);
    config.anubis.enabled = true;
    let generator = DockerComposeGenerator::new(&config);

    let result = generator.generate().expect("Generation should succeed");

    assert!(result.contains("test-proxy:"));
    assert!(result.contains("image: traefik:v3.0"));
    assert!(!result.contains("anubis:"));
}

#[test]
fn test_mixed_proxy_types_with_anubis() {
    let mut config = create_mixed_proxy_config();
    config.anubis.enabled = true;
    let generator = DockerComposeGenerator::new(&config);

    let result = generator.generate().expect("Generation should succeed");

    assert!(result.contains("nginx-proxy:"));
    assert!(result.contains("caddy-proxy:"));
    assert!(result.contains("haproxy-proxy:"));
    assert!(result.contains("traefik-proxy:"));

    assert!(result.contains("anubis:"));

    assert!(result.contains("image: nginx:alpine"));
    assert!(result.contains("image: caddy:alpine"));
    assert!(result.contains("image: haproxy:alpine"));
    assert!(result.contains("image: traefik:v3.0"));
}

#[test]
fn test_mixed_proxy_types_without_nginx() {
    let mut config = create_minimal_config();
    config.proxies = vec![
        create_test_proxy("caddy-proxy", ProxyType::Caddy, 81),
        create_test_proxy("haproxy-proxy", ProxyType::HaProxy, 82),
        create_test_proxy("traefik-proxy", ProxyType::Traefik, 83),
    ];
    config.anubis.enabled = true;
    let generator = DockerComposeGenerator::new(&config);

    let result = generator.generate().expect("Generation should succeed");

    assert!(result.contains("caddy-proxy:"));
    assert!(result.contains("haproxy-proxy:"));
    assert!(result.contains("traefik-proxy:"));

    assert!(!result.contains("anubis:"));
}

#[test]
fn awkward_values_are_quoted() {
    let mut config = create_minimal_config();
    config.proxies[0].restart = Some("true".to_string());
    config.proxies[0].volumes = vec!["*data: #x".to_string(), "tab\there\u{1}".to_string()];
    config.services[0].name = "svc: \"odd\"".to_string();
    config.services[0].upstream = "http://internal-service:3000".to_string();
    let result = DockerComposeGenerator::new(&config).generate().expect("Generation should succeed");
    assert!(!result.contains(": true"));
    let doc: serde_yaml::Value = serde_yaml::from_str(&result).expect("valid YAML");
    let proxy = &doc["services"]["test-proxy"];
    assert_eq!(proxy["restart"], serde_yaml::Value::String("true".to_string()));
    let volumes = proxy["volumes"].as_sequence().unwrap();
    assert!(volumes.contains(&serde_yaml::Value::String("*data: #x".to_string())));
    assert!(volumes.contains(&serde_yaml::Value::String("tab\there\u{1}".to_string())));
    assert_eq!(
        doc["services"]["svc: \"odd\""]["container_name"],
        serde_yaml::Value::String("svc: \"odd\"".to_string())
    );
    assert_eq!(proxy["ports"][0], serde_yaml::Value::String("80:80".to_string()));
}
