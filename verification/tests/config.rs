use yuha::config::{fallback_config_paths, fallback_config_paths_from, ConnectionProfile, SshConfig, YuhaConfig};
use yuha::keyed::KeyedList;
use yuha::logging::LogLevel;

#[test]
fn test_default_config() {
    let config = YuhaConfig::default();
    assert_eq!(config.network.ssh_port, 22);
    assert_eq!(config.remote.default_port, 9999);
    assert_eq!(config.client.connection_timeout, 30);
}

#[test]
fn config_test_config_validation() {
    let mut config = YuhaConfig::default();
    assert!(config.validate().is_ok());

    config.network.ssh_port = 0;
    assert!(config.validate().is_err());

    config.network.ssh_port = 22;
    config.client.connection_timeout = 0;
    assert!(config.validate().is_err());
}

#[test]
fn test_profile_management() {
    let mut config = YuhaConfig::default();

    let profile = ConnectionProfile {
        name: "test".to_string(),
        ssh: Some(SshConfig {
            host: "example.com".to_string(),
            port: 22,
            username: "user".to_string(),
            password: None,
            key_path: None,
            auto_upload_binary: false,
        }),
        local: None,
        env_vars: KeyedList::new(),
        overrides: KeyedList::new(),
    };

    config.set_profile(profile.clone());
    assert!(config.get_profile("test").is_some());

    let removed = config.remove_profile("test");
    assert!(removed.is_some());
    assert!(config.get_profile("test").is_none());
}

#[test]
fn validation_reports_the_first_problem() {
    let mut config = YuhaConfig::default();
    config.remote.buffer_size = 0;
    config.remote.polling_timeout = 0;
    assert_eq!(
        config.validate().unwrap_err().to_string(),
        "Configuration validation failed: Polling timeout must be greater than 0"
    );
    config.remote.polling_timeout = 1;
    assert_eq!(
        config.validate().unwrap_err().to_string(),
        "Configuration validation failed: Buffer size must be greater than 0"
    );
    config.remote.default_port = 0;
    assert_eq!(config.validate().unwrap_err().to_string(), "Configuration validation failed: TCP port cannot be 0");
}

#[test]
fn environment_values_override_settings() {
    let mut config = YuhaConfig::default();
    config.merge_with_env_values(Some("TRACE"), Some("8080"), Some("+12"), Some("/usr/bin/yr"));
    assert_eq!(config.logging.level, LogLevel::Trace);
    assert_eq!(config.remote.default_port, 8080);
    assert_eq!(config.client.connection_timeout, 12);
    assert_eq!(config.client.default_binary_path, Some("/usr/bin/yr".to_string()));

    config.merge_with_env_values(Some("yuha=debug"), Some("70000"), Some("-1"), None);
    assert_eq!(config.logging.level, LogLevel::Trace);
    assert_eq!(config.remote.default_port, 8080);
    assert_eq!(config.client.connection_timeout, 12);
    assert_eq!(config.client.default_binary_path, Some("/usr/bin/yr".to_string()));
}

#[test]
fn durations_come_from_settings() {
    let config = YuhaConfig::default();
    assert_eq!(config.connection_timeout().as_secs(), 30);
    assert_eq!(config.polling_timeout().as_secs(), 5);
    assert_eq!(config.polling_interval().as_millis(), 10);
}

#[test]
fn configuration_files_are_tried_in_order() {
    let paths = fallback_config_paths_from(Some("/c/yuha/config.toml".to_string()), None);
    assert_eq!(paths, vec!["yuha.toml", ".yuha.toml", "/c/yuha/config.toml", "/etc/yuha/config.toml"]);
    let all = fallback_config_paths();
    assert_eq!(all.first().map(String::as_str), Some("yuha.toml"));
    assert_eq!(all.last().map(String::as_str), Some("/etc/yuha/config.toml"));
}

#[test]
fn setting_a_profile_replaces_one_of_the_same_name() {
    let mut config = YuhaConfig::default();
    let mut a = ConnectionProfile {
        name: "p".to_string(),
        ssh: None,
        local: None,
        env_vars: KeyedList::new(),
        overrides: KeyedList::new(),
    };
    config.set_profile(a.clone());
    a.overrides.insert("retries".to_string(), "5".to_string());
    config.set_profile(a);
    assert_eq!(config.profiles.len(), 1);
    assert_eq!(
        config.get_profile("p").unwrap().overrides.get(&"retries".to_string()),
        Some(&"5".to_string())
    );
}
