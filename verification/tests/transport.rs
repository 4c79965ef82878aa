use yuha::config::{self, YuhaConfig};
use yuha::keyed::KeyedList;
use yuha::transport::factory::TransportRegistry;
use yuha::transport::setup::{
    parse_transport_type, GeneralTransportConfig, LocalTransportConfig, SshTransportConfig,
    TcpTransportConfig, TransportConfig, TransportFactory, WslTransportConfig,
};
use yuha::error::{TransportError, YuhaError};
use yuha::transport::{TlsConfig, TransportBuilder, TransportType};

#[test]
fn test_transport_type_serialization() {
    let ssh_type = TransportType::Ssh;
    let local_type = TransportType::Local;
    let tcp_type = TransportType::Tcp;
    let wsl_type = TransportType::Wsl;

    assert_eq!(ssh_type.to_string(), "ssh");
    assert_eq!(local_type.to_string(), "local");
    assert_eq!(tcp_type.to_string(), "tcp");
    assert_eq!(wsl_type.to_string(), "wsl");

    assert_eq!(TransportType::from_str("ssh").unwrap(), TransportType::Ssh);
    assert_eq!(TransportType::from_str("local").unwrap(), TransportType::Local);
    assert_eq!(TransportType::from_str("tcp").unwrap(), TransportType::Tcp);
    assert_eq!(TransportType::from_str("wsl").unwrap(), TransportType::Wsl);
}

#[test]
fn test_transport_config_defaults() {
    let config = TransportConfig::default();
    assert_eq!(config.transport_type, TransportType::Local);
    assert!(config.local.is_some());
    assert!(config.ssh.is_none());
    assert!(config.tcp.is_none());
    assert!(config.wsl.is_none());
}

#[test]
fn test_ssh_transport_config() {
    let ssh_config = SshTransportConfig {
        host: "example.com".to_string(),
        port: 22,
        username: "user".to_string(),
        password: Some("pass".to_string()),
        key_path: None,
        auto_upload_binary: false,
        timeout: 30,
        keepalive: 60,
    };

    assert_eq!(ssh_config.host, "example.com");
    assert_eq!(ssh_config.port, 22);
    assert_eq!(ssh_config.username, "user");
    assert_eq!(ssh_config.password, Some("pass".to_string()));
}

#[test]
fn test_local_transport_config() {
    let local_config = LocalTransportConfig {
        binary_path: "/path/to/yuha-remote".to_string(),
        args: vec!["--stdio".to_string(), "--debug".to_string()],
        working_dir: Some("/tmp".to_string()),
    };

    assert_eq!(local_config.binary_path, "/path/to/yuha-remote".to_string());
    assert_eq!(local_config.args, vec!["--stdio", "--debug"]);
    assert_eq!(local_config.working_dir, Some("/tmp".to_string()));
}

#[test]
fn test_tcp_transport_config() {
    let tcp_config = TcpTransportConfig {
        host: "localhost".to_string(),
        port: 9999,
        timeout: 30,
        keepalive: true,
        tls: None,
    };

    assert_eq!(tcp_config.host, "localhost");
    assert_eq!(tcp_config.port, 9999);
    assert_eq!(tcp_config.timeout, 30);
    assert!(tcp_config.keepalive);
    assert!(tcp_config.tls.is_none());
}

#[test]
fn test_wsl_transport_config() {
    let wsl_config = WslTransportConfig {
        distribution: Some("Ubuntu".to_string()),
        user: Some("user".to_string()),
        binary_path: Some("yuha-remote".to_string()),
        working_dir: Some("/home/user".to_string()),
    };

    assert_eq!(wsl_config.distribution, Some("Ubuntu".to_string()));
    assert_eq!(wsl_config.user, Some("user".to_string()));
    assert_eq!(wsl_config.binary_path, Some("yuha-remote".to_string()));
    assert_eq!(wsl_config.working_dir, Some("/home/user".to_string()));
}

#[test]
fn transport_tests_test_transport_factory_creation() {
    let config = YuhaConfig::default();
    let factory = TransportFactory::new(config);

    let local_config = factory.create_local_config(None);
    assert_eq!(local_config.transport_type, TransportType::Local);
    assert!(local_config.local.is_some());

    let ssh_config = factory.create_ssh_config(
        "example.com".to_string(),
        22,
        "user".to_string(),
        None,
        None,
        false,
    );
    assert_eq!(ssh_config.transport_type, TransportType::Ssh);
    assert!(ssh_config.ssh.is_some());

    let tcp_config = factory.create_tcp_config("localhost".to_string(), 9999, false);
    assert_eq!(tcp_config.transport_type, TransportType::Tcp);
    assert!(tcp_config.tcp.is_some());
}

#[test]
fn transport_tests_test_transport_config_validation() {
    let config = YuhaConfig::default();
    let factory = TransportFactory::new(config);

    let mut ssh_config = TransportConfig {
        transport_type: TransportType::Ssh,
        ssh: Some(SshTransportConfig {
            host: "example.com".to_string(),
            port: 22,
            username: "user".to_string(),
            password: Some("pass".to_string()),
            key_path: None,
            auto_upload_binary: false,
            timeout: 30,
            keepalive: 60,
        }),
        local: None,
        tcp: None,
        wsl: None,
        general: GeneralTransportConfig::default(),
    };
    assert!(factory.validate_config(&ssh_config).is_ok());

    ssh_config.ssh.as_mut().unwrap().host = String::new();
    assert!(factory.validate_config(&ssh_config).is_err());

    let mut tcp_config = TransportConfig {
        transport_type: TransportType::Tcp,
        ssh: None,
        local: None,
        tcp: Some(TcpTransportConfig {
            host: "localhost".to_string(),
            port: 9999,
            timeout: 30,
            keepalive: true,
            tls: None,
        }),
        wsl: None,
        general: GeneralTransportConfig::default(),
    };
    assert!(factory.validate_config(&tcp_config).is_ok());

    tcp_config.tcp.as_mut().unwrap().port = 0;
    assert!(factory.validate_config(&tcp_config).is_err());
}

#[test]
fn test_transport_type_parsing() {
    assert_eq!(parse_transport_type("ssh").unwrap(), TransportType::Ssh);
    assert_eq!(parse_transport_type("local").unwrap(), TransportType::Local);
    assert_eq!(parse_transport_type("tcp").unwrap(), TransportType::Tcp);
    assert_eq!(parse_transport_type("wsl").unwrap(), TransportType::Wsl);
    assert!(parse_transport_type("invalid").is_err());
}

#[test]
fn transport_test_transport_factory_creation() {
    let config = YuhaConfig::default();
    let factory = TransportFactory::new(config);

    let local_config = factory.create_local_config(None);
    assert_eq!(local_config.transport_type, TransportType::Local);
    assert!(local_config.local.is_some());
}

#[test]
fn transport_test_transport_config_validation() {
    let config = YuhaConfig::default();
    let factory = TransportFactory::new(config);

    let local_config = TransportConfig {
        transport_type: TransportType::Local,
        local: Some(LocalTransportConfig {
            binary_path: "/bin/true".to_string(),
            args: vec![],
            working_dir: None,
        }),
        ssh: None,
        tcp: None,
        wsl: None,
        general: GeneralTransportConfig::default(),
    };
    let _ = factory.validate_config(&local_config);
}

#[test]
fn test_ssh_config_conversion() {
    let ssh_config = config::SshConfig {
        host: "example.com".to_string(),
        port: 22,
        username: "user".to_string(),
        password: Some("pass".to_string()),
        key_path: None,
        auto_upload_binary: false,
    };

    let transport_config: SshTransportConfig = ssh_config.into();
    assert_eq!(transport_config.host, "example.com");
    assert_eq!(transport_config.port, 22);
    assert_eq!(transport_config.username, "user");
}

#[test]
fn test_available_transports() {
    let transports = yuha::transport::TransportFactory::available_transports();
    assert!(transports.contains(&TransportType::Local));
    assert!(transports.contains(&TransportType::Ssh));
    assert!(transports.contains(&TransportType::Tcp));
    assert_eq!(transports.contains(&TransportType::Wsl), (std::path::MAIN_SEPARATOR == '\\'));
}

#[test]
fn test_transport_availability() {
    assert!(yuha::transport::TransportFactory::is_transport_available(TransportType::Local));
    assert!(yuha::transport::TransportFactory::is_transport_available(TransportType::Ssh));
    assert!(yuha::transport::TransportFactory::is_transport_available(TransportType::Tcp));
    assert_eq!(yuha::transport::TransportFactory::is_transport_available(TransportType::Wsl), (std::path::MAIN_SEPARATOR == '\\'));
}

#[test]
fn test_transport_registry() {
    let registry: TransportRegistry<u32> = TransportRegistry::new();
    assert_eq!(registry.list_names().len(), 0);
}

#[test]
fn registry_keeps_transports_by_name() {
    let mut registry: TransportRegistry<u32> = TransportRegistry::new();
    registry.register("a", 1);
    registry.register("b", 2);
    registry.register("a", 3);
    assert_eq!(registry.get("a"), Some(&3));
    assert_eq!(registry.list_names(), vec!["a".to_string(), "b".to_string()]);
    assert_eq!(registry.unregister("a"), Some(3));
    assert_eq!(registry.get("a"), None);
    registry.clear();
    assert_eq!(registry.list_names().len(), 0);
}

fn profile(name: &str, ssh: Option<config::SshConfig>, local: Option<config::LocalConfig>) -> config::ConnectionProfile {
    let mut env_vars = KeyedList::new();
    env_vars.insert("LANG".to_string(), "C".to_string());
    config::ConnectionProfile {
        name: name.to_string(),
        ssh,
        local,
        env_vars,
        overrides: KeyedList::new(),
    }
}

#[test]
fn profiles_become_transport_configurations() {
    let mut settings = YuhaConfig::default();
    settings.client.connection_timeout = 45;
    settings.set_profile(profile(
        "box",
        Some(config::SshConfig {
            host: "h".to_string(),
            port: 2222,
            username: "u".to_string(),
            password: None,
            key_path: Some("/k".to_string()),
            auto_upload_binary: true,
        }),
        None,
    ));
    settings.set_profile(profile(
        "here",
        None,
        Some(config::LocalConfig { binary_path: "/bin/r".to_string(), args: vec!["-x".to_string()], working_dir: None }),
    ));
    settings.set_profile(profile("empty", None, None));
    let factory = TransportFactory::new(settings);

    let ssh = factory.create_from_profile("box").unwrap();
    assert_eq!(ssh.transport_type, TransportType::Ssh);
    let s = ssh.ssh.unwrap();
    assert_eq!((s.host.as_str(), s.port, s.timeout, s.keepalive), ("h", 2222, 45, 60));
    assert!(ssh.local.is_some());
    assert_eq!(ssh.general.env_vars.get(&"LANG".to_string()), Some(&"C".to_string()));

    let local = factory.create_from_profile("here").unwrap();
    assert_eq!(local.transport_type, TransportType::Local);
    assert_eq!(local.local.unwrap().args, vec!["-x".to_string()]);

    let missing = factory.create_from_profile("nope").unwrap_err();
    assert_eq!(missing.to_string(), "Configuration validation failed: Profile 'nope' not found");
    let empty = factory.create_from_profile("empty").unwrap_err();
    assert_eq!(
        empty.to_string(),
        "Configuration validation failed: Profile 'empty' does not specify a valid transport configuration"
    );
}

#[test]
fn factory_configs_follow_client_settings() {
    let mut settings = YuhaConfig::default();
    settings.client.max_retries = 7;
    settings.client.default_binary_path = Some("/opt/yuha-remote".to_string());
    let factory = TransportFactory::new(settings);
    let local = factory.create_local_config(None);
    assert_eq!(local.local.as_ref().unwrap().binary_path, "/opt/yuha-remote");
    assert_eq!(local.local.unwrap().args, vec!["--stdio".to_string()]);
    assert_eq!(local.general.max_retries, 7);
    let explicit = factory.create_local_config(Some("/x".to_string()));
    assert_eq!(explicit.local.unwrap().binary_path, "/x");
    let tcp = factory.create_tcp_config("h".to_string(), 1, true);
    let tls: TlsConfig = tcp.tcp.unwrap().tls.unwrap();
    assert!(!tls.enabled && tls.verify_cert);
    let wsl = factory.create_wsl_config(Some("Ubuntu".to_string()), None, None);
    assert_eq!(wsl.wsl.unwrap().distribution, Some("Ubuntu".to_string()));
    let detected = factory.auto_detect_transport().unwrap();
    assert_eq!(detected.transport_type, TransportType::Local);
}

#[test]
fn validation_messages_name_the_problem() {
    let factory = TransportFactory::new(YuhaConfig::default());
    let mut c = factory.create_ssh_config("h".to_string(), 22, "u".to_string(), None, None, false);
    assert_eq!(
        factory.validate_config_with(&c, true, false).unwrap_err().to_string(),
        "Configuration validation failed: SSH transport requires either password or key authentication"
    );
    c.ssh.as_mut().unwrap().username.clear();
    assert_eq!(
        factory.validate_config_with(&c, true, false).unwrap_err().to_string(),
        "Configuration validation failed: SSH username cannot be empty"
    );
    let wsl = factory.create_wsl_config(None, None, None);
    assert!(factory.validate_config_with(&wsl, true, true).is_ok());
    assert_eq!(
        factory.validate_config_with(&wsl, true, false).unwrap_err().to_string(),
        "Configuration validation failed: WSL transport is only available on Windows"
    );
    let local = factory.create_local_config(Some("/nowhere/yuha".to_string()));
    assert_eq!(
        factory.validate_config_with(&local, false, false).unwrap_err().to_string(),
        "Configuration validation failed: Local binary not found: /nowhere/yuha"
    );
}

#[test]
fn connection_keys_identify_destinations() {
    let c = TransportBuilder::ssh().host("example.com").username("me").password("pw").port(2200).build().unwrap();
    assert_eq!(c.connection_key(), "ssh://me@example.com:2200");
    let t = TransportBuilder::tcp().host("h").port(9).build().unwrap();
    assert_eq!(t.connection_key(), "tcp://h:9");
}

#[test]
fn factory_test_config_validation() {
    // Valid local config
    let config = TransportBuilder::local().binary_path("test").build().unwrap();
    assert!(yuha::transport::TransportFactory::validate_config(&config).is_ok());

    // An SSH configuration without a host is invalid.
    let mut config = TransportBuilder::ssh().build().unwrap();
    if let Some(ref mut ssh) = config.ssh {
        ssh.host.clear();
    }
    assert!(yuha::transport::TransportFactory::validate_config(&config).is_err());
}

#[test]
fn ssh_and_local_builders_accept_incomplete_settings() {
    let ssh = TransportBuilder::ssh().build().unwrap();
    assert_eq!(ssh.transport_type, TransportType::Ssh);
    assert_eq!(ssh.ssh.as_ref().unwrap().host, "");
    assert_eq!(ssh.ssh.as_ref().unwrap().port, 22);
    assert!(ssh.local.is_none() && ssh.tcp.is_none() && ssh.wsl.is_none());
    let local = TransportBuilder::local().binary_path("/no/such/binary").build().unwrap();
    assert_eq!(local.transport_type, TransportType::Local);
}

#[test]
fn tcp_builder_validates() {
    let err = TransportBuilder::tcp().build().unwrap_err();
    match err {
        YuhaError::Transport(TransportError::ConfigurationError { reason }) => {
            assert_eq!(reason, "TCP host cannot be empty")
        }
        other => panic!("unexpected error: {:?}", other),
    }
    let err = TransportBuilder::tcp().host("localhost").build().unwrap_err();
    match err {
        YuhaError::Transport(TransportError::ConfigurationError { reason }) => {
            assert_eq!(reason, "TCP port cannot be 0")
        }
        other => panic!("unexpected error: {:?}", other),
    }
    let c = TransportBuilder::tcp().host("localhost").port(9999).build().unwrap();
    assert_eq!(c.transport_type, TransportType::Tcp);
    let tcp = c.tcp.as_ref().unwrap();
    assert_eq!(tcp.host, "localhost");
    assert_eq!(tcp.port, 9999);
    assert_eq!(tcp.timeout, 30);
    assert!(tcp.tls.is_none());
    assert!(c.ssh.is_none() && c.local.is_none() && c.wsl.is_none());
}

#[test]
fn wsl_builder_validates_the_platform() {
    let r = TransportBuilder::wsl().distribution("Ubuntu").build();
    if std::path::MAIN_SEPARATOR == '\\' {
        let c = r.unwrap();
        assert_eq!(c.transport_type, TransportType::Wsl);
    } else {
        match r.unwrap_err() {
            YuhaError::Transport(TransportError::NotAvailable { transport_type, reason }) => {
                assert_eq!(transport_type, "WSL");
                assert_eq!(reason, "WSL is only available on Windows");
            }
            other => panic!("unexpected error: {:?}", other),
        }
    }
}

#[test]
fn generic_builder_validates_its_configuration() {
    let c = TransportBuilder::new().build().unwrap();
    assert_eq!(c.transport_type, TransportType::Local);
    assert_eq!(c.local.as_ref().unwrap().binary_path, "yuha-remote");
}
