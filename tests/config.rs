use uncovr::config::app::AppConfig;
use uncovr::config::logging::{LogFormat, LogLevel, Logging};
use uncovr::config::meta::{
    AppConfig as FullConfig, CorsConfig, Environment, LoggingConfig,
};

#[test]
fn app_test_default_config() {
    let config = AppConfig::default();
    assert_eq!(config.name, "Uncovr API");
    assert_eq!(config.bind_address, "127.0.0.1:3000");
    assert!(config.enable_docs);
}

#[test]
fn test_new_config() {
    let config = AppConfig::new("Test API", "2.0.0")
        .description("Test description")
        .bind("0.0.0.0:8080")
        .docs(false);

    assert_eq!(config.name, "Test API");
    assert_eq!(config.version, "2.0.0");
    assert_eq!(config.description, "Test description");
    assert_eq!(config.bind_address, "0.0.0.0:8080");
    assert!(!config.enable_docs);
}

#[test]
fn test_add_server() {
    let config = AppConfig::new("Test API", "1.0.0")
        .add_server("https://api.example.com", "Production")
        .add_server("https://staging.example.com", "Staging");

    assert_eq!(config.api_servers.len(), 2);
    assert_eq!(config.api_servers[0].url, "https://api.example.com");
    assert_eq!(config.api_servers[1].description, "Staging");
}

#[test]
fn meta_test_default_config() {
    let config = FullConfig::default();
    assert_eq!(config.environment, Environment::Development);
    assert!(config.cors.allows_all_origins());
    assert_eq!(config.bind_address, "127.0.0.1:3000");
}

#[test]
fn test_production_config() {
    let config = FullConfig::new("My API", "1.0.0")
        .environment(Environment::Production)
        .cors(CorsConfig::production(vec!["https://example.com".to_string()]));

    assert_eq!(config.environment, Environment::Production);
    assert!(!config.cors.allows_all_origins());
    assert_eq!(config.cors.allowed_origins[0], "https://example.com");
}

#[test]
fn test_development_cors() {
    let cors = CorsConfig::development();
    assert!(cors.allows_all_origins());
    assert!(!cors.allow_credentials);
}

#[test]
fn test_production_cors() {
    let cors = CorsConfig::production(vec!["https://example.com".to_string()]);
    assert!(!cors.allows_all_origins());
    assert!(cors.allow_credentials);
}

#[test]
fn test_default_config_no_servers() {
    let config = FullConfig::default();
    assert!(config.api_servers.is_empty());
}

#[test]
fn test_bind_does_not_set_servers() {
    let config = FullConfig::new("Test API", "1.0.0").bind("0.0.0.0:8080");

    assert_eq!(config.bind_address, "0.0.0.0:8080");
    assert!(config.api_servers.is_empty());
}

#[test]
fn test_explicit_server_configuration() {
    let config = FullConfig::new("Test API", "1.0.0")
        .bind("0.0.0.0:8080")
        .add_server("https://api.example.com", "Production")
        .add_server("https://staging.example.com", "Staging");

    assert_eq!(config.api_servers.len(), 2);
    assert_eq!(config.api_servers[0].url, "https://api.example.com");
    assert_eq!(config.api_servers[0].description, "Production");
    assert_eq!(config.api_servers[1].url, "https://staging.example.com");
    assert_eq!(config.api_servers[1].description, "Staging");
}

#[test]
fn log_level_filter_names() {
    assert_eq!(LogLevel::Trace.as_filter(), "trace");
    assert_eq!(LogLevel::Debug.as_filter(), "debug");
    assert_eq!(LogLevel::Info.as_filter(), "info");
    assert_eq!(LogLevel::Warn.as_filter(), "warn");
    assert_eq!(LogLevel::Error.as_filter(), "error");
    assert_eq!(LogLevel::default(), LogLevel::Info);
}

#[test]
fn logging_presets_and_setters() {
    let d = Logging::development();
    assert_eq!(d, Logging { level: LogLevel::Debug, format: LogFormat::Pretty, log_requests: true });
    let p = Logging::production();
    assert_eq!(p, Logging { level: LogLevel::Info, format: LogFormat::Json, log_requests: true });
    let c = Logging::default().level(LogLevel::Warn).format(LogFormat::Json).log_requests(false);
    assert_eq!(c, Logging { level: LogLevel::Warn, format: LogFormat::Json, log_requests: false });
    assert_eq!(Logging::new(LogLevel::Trace, LogFormat::Pretty).log_requests, true);
}

#[test]
fn logging_config_presets() {
    let d = LoggingConfig::development();
    assert!(d.enabled && d.log_requests && d.log_responses);
    let p = LoggingConfig::production();
    assert!(p.enabled && p.log_requests && !p.log_responses);
    let off = LoggingConfig::disabled();
    assert!(!off.enabled && !off.log_requests && !off.log_responses);
    let c = LoggingConfig::default().enabled(false).log_responses(true);
    assert!(!c.enabled && c.log_responses);
}

#[test]
fn environment_sets_cors() {
    let config = FullConfig::new("A", "1")
        .cors(CorsConfig::production(vec!["https://a.example".to_string()]))
        .environment(Environment::Staging);
    assert_eq!(config.cors.allowed_origins, vec!["https://a.example".to_string()]);
    assert!(config.cors.allow_credentials);
    assert!(!config.is_development());
    assert!(!config.is_production());
    let dev = config.environment(Environment::Development);
    assert!(dev.cors.allows_all_origins());
    assert!(dev.is_development());
}

#[test]
fn env_vars_last_value_wins() {
    let config = FullConfig::new("A", "1").env("KEY", "one").env("OTHER", "x").env("KEY", "two");
    assert_eq!(config.env_vars.get("KEY"), Some("two"));
    assert_eq!(config.env_vars.get("OTHER"), Some("x"));
    assert_eq!(config.env_vars.get("MISSING"), None);
}

#[test]
fn connection_settings() {
    let config = FullConfig::default()
        .compression(false)
        .max_connections(10)
        .keep_alive_timeout(5)
        .connection_timeout(7);
    assert!(!config.enable_compression);
    assert_eq!(config.max_connections, Some(10));
    assert_eq!(config.keep_alive_timeout, Some(5));
    assert_eq!(config.connection_timeout, 7);
    let d = FullConfig::default();
    assert_eq!(d.keep_alive_timeout, Some(60));
    assert_eq!(d.connection_timeout, 30);
    assert_eq!(d.max_connections, None);
}
