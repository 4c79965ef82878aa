use yuha::logging::{
    builder_from_env, dev_logging_builder, logging_directives, prod_logging_builder, LogFormat,
    LogLevel, LogOutput, LoggerBuilder, LoggingConfig,
};

#[test]
fn test_log_level_parsing() {
    assert_eq!(LogLevel::from_str("debug").unwrap(), LogLevel::Debug);
    assert_eq!(LogLevel::from_str("info").unwrap(), LogLevel::Info);
    assert_eq!(LogLevel::from_str("WARN").unwrap(), LogLevel::Warn);
    assert!(LogLevel::from_str("invalid").is_err());
}

#[test]
fn test_log_level_display() {
    assert_eq!(LogLevel::Debug.to_string(), "debug");
    assert_eq!(LogLevel::Info.to_string(), "info");
    assert_eq!(LogLevel::Warn.to_string(), "warn");
}

#[test]
fn test_logging_config_default() {
    let config = LoggingConfig::default();
    assert_eq!(config.level, LogLevel::Info);
    assert_eq!(config.format, LogFormat::Compact);
    assert_eq!(config.outputs, vec![LogOutput::Stdout]);
    assert!(config.include_timestamps);
    assert!(config.enable_colors);
}

#[test]
fn test_logger_builder() {
    let builder = LoggerBuilder::new()
        .level(LogLevel::Debug)
        .format(LogFormat::Pretty)
        .timestamps(false)
        .colors(false);

    assert_eq!(builder.config.level, LogLevel::Debug);
    assert_eq!(builder.config.format, LogFormat::Pretty);
    assert!(!builder.config.include_timestamps);
    assert!(!builder.config.enable_colors);
}

#[test]
fn level_names_read_back() {
    for level in [LogLevel::Trace, LogLevel::Debug, LogLevel::Info, LogLevel::Warn, LogLevel::Error] {
        assert_eq!(LogLevel::from_str(&level.to_string()).unwrap(), level);
    }
    assert_eq!(LogLevel::from_str("ErRoR").unwrap(), LogLevel::Error);
}

#[test]
fn invalid_level_message() {
    let e = LogLevel::from_str("loud").unwrap_err();
    assert_eq!(e.to_string(), "Configuration validation failed: Invalid log level: loud");
}

#[test]
fn directives_list_global_then_module_levels() {
    let builder = LoggerBuilder::new()
        .level(LogLevel::Warn)
        .module_level("yuha::session", LogLevel::Trace)
        .module_level("tokio", LogLevel::Error);
    let directives = logging_directives(&builder.config);
    assert_eq!(
        directives,
        vec![
            "yuha=warn".to_string(),
            "yuha::session=trace".to_string(),
            "tokio=error".to_string()
        ]
    );
}

#[test]
fn builder_from_environment_values() {
    let b = builder_from_env(Some("DEBUG"), Some("json"), Some("/tmp/y.log"), true).unwrap();
    assert_eq!(b.config.level, LogLevel::Debug);
    assert_eq!(b.config.format, LogFormat::Json);
    assert_eq!(
        b.config.outputs,
        vec![
            LogOutput::Stdout,
            LogOutput::File { path: "/tmp/y.log".to_string(), append: true }
        ]
    );
    assert!(!b.config.enable_colors);

    let defaults = builder_from_env(None, None, None, false).unwrap();
    assert_eq!(defaults.config.level, LogLevel::Info);
    assert!(defaults.config.enable_colors);

    let bad_level = builder_from_env(Some("verbose"), None, None, false);
    assert_eq!(bad_level.unwrap_err().to_string(), "Configuration validation failed: Invalid log level: verbose");
    let bad_format = builder_from_env(None, Some("xml"), None, false);
    assert_eq!(bad_format.unwrap_err().to_string(), "Configuration validation failed: Invalid log format: xml");
}

#[test]
fn development_and_production_builders() {
    let dev = dev_logging_builder();
    assert_eq!(dev.config.level, LogLevel::Debug);
    assert_eq!(dev.config.format, LogFormat::Pretty);
    assert!(dev.config.include_location);
    assert!(!dev.config.include_thread_info);

    let prod = prod_logging_builder(Some("/var/log/yuha"));
    assert_eq!(prod.config.level, LogLevel::Info);
    assert_eq!(prod.config.format, LogFormat::Json);
    assert!(prod.config.structured);
    assert_eq!(
        prod.config.outputs.last(),
        Some(&LogOutput::RotatingFile { directory: "/var/log/yuha".to_string(), filename: "yuha".to_string() })
    );
    let prod_stdout = prod_logging_builder(None);
    assert_eq!(prod_stdout.config.outputs.last(), Some(&LogOutput::Stdout));
}

#[test]
fn production_logging_keeps_default_rotation() {
    let b = yuha::logging::prod_logging_builder(Some("/var/log/yuha"));
    assert!(b.config.module_levels.is_empty());
    assert_eq!(b.config.max_file_size, 10 * 1024 * 1024);
    assert_eq!(b.config.max_files, 5);
    assert!(b.config.structured);
}
