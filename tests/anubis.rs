use cerberus::anubis::AnubisGenerator;
use cerberus::config::{AnubisConfig, Config, GlobalConfig, LoggingConfig, ProjectConfig, TlsConfig};
use serde_json::Value;
use std::collections::HashMap;

fn base_config(name: &str, anubis: AnubisConfig) -> Config {
    Config {
        project: ProjectConfig {
            name: name.to_string(),
            scaling: false,
        },
        global: GlobalConfig::default(),
        tls: TlsConfig::default(),
        anubis,
        proxies: vec![],
        services: vec![],
        networks: HashMap::new(),
        volumes: HashMap::new(),
        secrets: HashMap::new(),
        configs: HashMap::new(),
        logging: LoggingConfig::default(),
    }
}

fn create_test_config() -> Config {
    let mut anubis = AnubisConfig::default();
    anubis.enabled = true;
    anubis.bind = ":8080".to_string();
    anubis.target = "http://proxy-layer2:80".to_string();
    anubis.difficulty = 7;
    anubis.metrics_bind = ":9090".to_string();
    base_config("test-project", anubis)
}

fn create_test_config_without_anubis() -> Config {
    base_config("test-project-no-anubis", AnubisConfig::default())
}

#[test]
fn test_anubis_generator_creation() {
    let config = create_test_config();
    let generator = AnubisGenerator::new(&config);

    assert_eq!(generator.config.project.name, "test-project");
}

#[test]
fn test_generate_bot_policy_json() {
    let config = create_test_config();
    let generator = AnubisGenerator::new(&config);

    let result = generator.generate().expect("Failed to generate bot policy");

    let policy: Value = serde_json::from_str(&result).expect("Generated JSON is invalid");

    assert!(policy["ALLOW"].is_array(), "ALLOW section should be an array");
    assert!(policy["CHALLENGE"].is_array(), "CHALLENGE section should be an array");
    assert!(policy["BLOCK"].is_array(), "BLOCK section should be an array");
    assert!(policy["config"].is_object(), "config section should be an object");
    assert!(policy["metadata"].is_object(), "metadata section should be an object");

    let allow_rules = policy["ALLOW"].as_array().unwrap();
    let favicon_rule = allow_rules.iter().find(|rule| rule["path"] == "/favicon.ico");
    assert!(favicon_rule.is_some(), "Should have favicon rule");

    let googlebot_rule = allow_rules.iter().find(|rule| rule["user-agent"] == "*Googlebot*");
    assert!(googlebot_rule.is_some(), "Should have Googlebot rule");

    let challenge_rules = policy["CHALLENGE"].as_array().unwrap();
    let mozilla_rule = challenge_rules.iter().find(|rule| rule["user-agent"] == "Mozilla*");
    assert!(mozilla_rule.is_some(), "Should have Mozilla challenge rule");

    let block_rules = policy["BLOCK"].as_array().unwrap();
    let bot_rule = block_rules.iter().find(|rule| rule["user-agent"] == "*bot*");
    assert!(bot_rule.is_some(), "Should have bot blocking rule");

    assert_eq!(policy["config"]["difficulty"], 7, "Difficulty should match config");
    assert_eq!(policy["config"]["challenge_ttl"], 3600, "TTL should be set");
    assert_eq!(policy["config"]["javascript_challenge"], true, "JS challenge should be enabled");

    assert_eq!(policy["metadata"]["generated_by"], "cerberus-rust");
    assert_eq!(policy["metadata"]["project_name"], "test-project");
    assert_eq!(policy["metadata"]["anubis_enabled"], true);
}

#[test]
fn test_generate_bot_policy_without_anubis() {
    let config = create_test_config_without_anubis();
    let generator = AnubisGenerator::new(&config);

    let result = generator.generate().expect("Failed to generate bot policy");
    let policy: Value = serde_json::from_str(&result).expect("Generated JSON is invalid");

    assert_eq!(policy["config"]["difficulty"], 5, "Should use default difficulty");
    assert_eq!(policy["metadata"]["anubis_enabled"], false);
    assert_eq!(policy["metadata"]["project_name"], "test-project-no-anubis");
}

#[test]
fn test_generate_env_config() {
    let config = create_test_config();
    let generator = AnubisGenerator::new(&config);

    let env_vars = generator.generate_env_config().expect("Failed to generate env config");

    let env_map: HashMap<String, String> = env_vars
        .iter()
        .filter_map(|var| {
            let parts: Vec<&str> = var.splitn(2, '=').collect();
            if parts.len() == 2 {
                Some((parts[0].to_string(), parts[1].to_string()))
            } else {
                None
            }
        })
        .collect();

    assert_eq!(env_map.get("ANUBIS_BIND"), Some(&":8080".to_string()));
    assert_eq!(env_map.get("ANUBIS_TARGET"), Some(&"http://proxy-layer2:80".to_string()));
    assert_eq!(env_map.get("ANUBIS_DIFFICULTY"), Some(&"7".to_string()));
    assert_eq!(env_map.get("ANUBIS_METRICS_BIND"), Some(&":9090".to_string()));
    assert_eq!(env_map.get("ANUBIS_LOG_LEVEL"), Some(&"INFO".to_string()));
    assert_eq!(env_map.get("ANUBIS_CHALLENGE_TTL"), Some(&"3600".to_string()));
}

#[test]
fn test_bot_policy_json_structure() {
    let config = create_test_config();
    let generator = AnubisGenerator::new(&config);

    let result = generator.generate().expect("Failed to generate bot policy");
    let policy: Value = serde_json::from_str(&result).expect("Generated JSON is invalid");

    assert!(policy.is_object(), "Root should be an object");

    let allow_section = &policy["ALLOW"];
    assert!(allow_section.is_array(), "ALLOW should be array");
    let first_allow_rule = &allow_section[0];
    assert!(first_allow_rule.is_object(), "Allow rules should be objects");
    assert!(first_allow_rule.get("description").is_some(), "Allow rules should have descriptions");

    let challenge_section = &policy["CHALLENGE"];
    assert!(challenge_section.is_array(), "CHALLENGE should be array");

    let rate_limit_rule = challenge_section
        .as_array()
        .unwrap()
        .iter()
        .find(|rule| rule.get("rate_limit").is_some());
    assert!(rate_limit_rule.is_some(), "Should have rate limiting rule");

    let block_section = &policy["BLOCK"];
    assert!(block_section.is_array(), "BLOCK should be array");

    let allow_user_agents: Vec<&str> = allow_section
        .as_array()
        .unwrap()
        .iter()
        .filter_map(|rule| rule.get("user-agent")?.as_str())
        .collect();

    let block_user_agents: Vec<&str> = block_section
        .as_array()
        .unwrap()
        .iter()
        .filter_map(|rule| rule.get("user-agent")?.as_str())
        .collect();

    assert!(allow_user_agents.contains(&"*Googlebot*"));
    assert!(allow_user_agents.contains(&"*bingbot*"));
    assert!(!block_user_agents.contains(&"*Googlebot*"));
    assert!(!block_user_agents.contains(&"*bingbot*"));
}

#[test]
fn test_anubis_config_validation() {
    let mut config = create_test_config();

    for difficulty in [1, 5, 10] {
        config.anubis.difficulty = difficulty;
        let generator = AnubisGenerator::new(&config);
        let result = generator.generate().expect("Failed to generate with difficulty {difficulty}");
        let policy: Value = serde_json::from_str(&result).expect("Invalid JSON");
        assert_eq!(policy["config"]["difficulty"], difficulty);
    }

    let bind_addresses = [":8080", ":8443", ":3000"];
    for bind in bind_addresses {
        config.anubis.bind = bind.to_string();
        let generator = AnubisGenerator::new(&config);
        let env_vars = generator.generate_env_config().expect("Failed to generate env config");
        assert!(env_vars.iter().any(|var| var == &format!("ANUBIS_BIND={bind}")));
    }
}

#[test]
fn project_name_with_quotes_is_escaped_in_policy() {
    let config = base_config("say \"hi\"\\now", AnubisConfig::default());
    let result = AnubisGenerator::new(&config).generate().unwrap();
    let policy: Value = serde_json::from_str(&result).expect("policy stays valid JSON");
    assert_eq!(policy["metadata"]["project_name"], "say \"hi\"\\now");
    assert!(result.contains("\"project_name\": \"say \\\"hi\\\"\\\\now\""));
}

#[test]
fn control_characters_in_project_name_use_unicode_escapes() {
    let config = base_config("a\u{1}b\tc", AnubisConfig::default());
    let result = AnubisGenerator::new(&config).generate().unwrap();
    assert!(result.contains("\"project_name\": \"a\\u0001b\\tc\""));
}

#[test]
fn env_config_has_fixed_tail() {
    let config = create_test_config();
    let env = AnubisGenerator::new(&config).generate_env_config().unwrap();
    assert_eq!(env.len(), 9);
    assert_eq!(env[8], "USE_REMOTE_ADDRESS=true");
    assert_eq!(env[2], "ANUBIS_DIFFICULTY=7");
}
