use quetty::config::{
    effective_page_size, reload_config, ConfigLoadResult, AppConfig, AuthEnvironment, AzureAdSettings, BatchLimits,
    ConfigValidationError, LoggingConfig, ServicebusConfig, UIConfig,
};
use quetty::keys::KeyBindingsConfig;

fn no_env() -> AuthEnvironment {
    AuthEnvironment {
        tenant_id: false,
        client_id: false,
        client_secret: false,
        encrypted_client_secret: false,
        client_secret_encryption_salt: false,
        encrypted_connection_string: false,
        encryption_salt: false,
    }
}

fn valid_config(auth_method: &str) -> AppConfig {
    AppConfig {
        page_size: None,
        max_messages: None,
        crossterm_input_listener_interval_ms: None,
        crossterm_input_listener_retries: None,
        poll_timeout_ms: None,
        tick_interval_millis: None,
        queue_stats_display_enabled: None,
        queue_stats_cache_ttl_seconds: None,
        queue_stats_use_management_api: None,
        azure_resource_cache_ttl_seconds: None,
        azure_resource_cache_max_entries: None,
        batch: BatchLimits {
            max_batch_size: 200,
            operation_timeout_secs: 300,
            bulk_chunk_size: 200,
            bulk_processing_time_secs: 30,
            lock_timeout_secs: 10,
            max_messages_to_process: 10000,
        },
        ui: UIConfig::default(),
        keys: KeyBindingsConfig::default(),
        servicebus: ServicebusConfig {
            encrypted_connection_string: Some("ZW5jcnlwdGVk".to_string()),
            encryption_salt: Some("c2FsdA==".to_string()),
        },
        azure_ad: AzureAdSettings {
            auth_method: auth_method.to_string(),
            has_tenant_id: true,
            has_client_id: true,
            has_client_secret: true,
        },
        logging: LoggingConfig::default(),
    }
}

#[test]
fn test_valid_configuration_passes() {
    for method in ["connection_string", "device_code", "client_secret"] {
        let config = valid_config(method);
        assert!(config.validate(&no_env()).is_ok(), "{method}");
        assert!(config.has_required_auth_fields(&no_env()), "{method}");
    }
}

#[test]
fn test_page_size_out_of_range() {
    let mut config = valid_config("connection_string");
    config.page_size = Some(50);
    let errors = config.validate(&no_env()).unwrap_err();
    assert_eq!(errors.len(), 1);
    assert_eq!(errors[0].summary(), "Invalid page_size: 50 (min: 100, max: 1000)");
    assert_eq!(
        errors[0].user_message(),
        "Page size out of range!\n\nYour configured value: 50\nValid range: 100 - 1000\n\nPlease update page_size in config.toml to a value between 100 and 1000."
    );

    config.page_size = Some(1001);
    let errors = config.validate(&no_env()).unwrap_err();
    assert_eq!(errors.len(), 1);
    assert_eq!(errors[0].summary(), "Invalid page_size: 1001 (min: 100, max: 1000)");

    config.page_size = Some(1000);
    assert!(config.validate(&no_env()).is_ok());
}

#[test]
fn test_batch_limits_reported_in_order() {
    let mut config = valid_config("connection_string");
    config.batch.max_batch_size = 4096;
    config.batch.lock_timeout_secs = 31;
    config.queue_stats_cache_ttl_seconds = Some(10);
    let errors = config.validate(&no_env()).unwrap_err();
    let summaries: Vec<String> = errors.iter().map(|e| e.summary()).collect();
    assert_eq!(
        summaries,
        vec![
            "Invalid batch_size: 4096 (limit: 2048)".to_string(),
            "Invalid lock_timeout_secs: 31 (limit: 30)".to_string(),
            "Invalid queue_stats_cache_ttl_seconds: 10 (min: 30, max: 3600)".to_string(),
        ]
    );
}

#[test]
fn test_missing_connection_string_conflicts() {
    let mut config = valid_config("connection_string");
    config.servicebus.encryption_salt = Some("   ".to_string());
    assert!(!config.has_required_auth_fields(&no_env()));
    let errors = config.validate(&no_env()).unwrap_err();
    assert_eq!(errors.len(), 1);
    assert!(matches!(errors[0], ConfigValidationError::ConflictingAuthConfig { .. }));
    assert!(errors[0]
        .summary()
        .starts_with("Conflicting authentication configuration: Authentication method is set to 'connection_string'"));
}

#[test]
fn test_device_code_needs_tenant_and_client() {
    let mut config = valid_config("device_code");
    config.azure_ad.has_tenant_id = false;
    config.azure_ad.has_client_id = false;
    let errors = config.validate(&no_env()).unwrap_err();
    let summaries: Vec<String> = errors.iter().map(|e| e.summary()).collect();
    assert_eq!(
        summaries,
        vec![
            "Missing required Azure AD configuration: tenant_id".to_string(),
            "Missing required Azure AD configuration: client_id".to_string(),
        ]
    );

    let mut env = no_env();
    env.tenant_id = true;
    env.client_id = true;
    assert!(config.validate(&env).is_ok());
    assert!(config.has_required_auth_fields(&env));
}

#[test]
fn test_client_secret_accepts_encrypted_secret() {
    let mut config = valid_config("client_secret");
    config.azure_ad.has_client_secret = false;
    let errors = config.validate(&no_env()).unwrap_err();
    assert_eq!(errors.len(), 1);
    assert_eq!(errors[0].summary(), "Missing required Azure AD configuration: client_secret");

    let mut env = no_env();
    env.encrypted_client_secret = true;
    assert!(config.validate(&env).is_ok());
}

#[test]
fn test_invalid_auth_method() {
    let config = valid_config("password");
    assert!(!config.has_required_auth_fields(&no_env()));
    let errors = config.validate(&no_env()).unwrap_err();
    assert_eq!(errors.len(), 1);
    assert_eq!(errors[0].summary(), "Invalid authentication method: password");
}

#[test]
fn test_encrypted_auth_methods_follow_the_method() {
    let mut env = no_env();
    env.encrypted_connection_string = true;
    env.encryption_salt = true;
    env.encrypted_client_secret = true;
    env.client_secret_encryption_salt = true;
    assert_eq!(
        valid_config("connection_string").get_encrypted_auth_methods(&env),
        vec!["Connection String".to_string()]
    );
    assert_eq!(
        valid_config("client_secret").get_encrypted_auth_methods(&env),
        vec!["Azure AD Client Secret".to_string()]
    );
    assert!(valid_config("device_code").get_encrypted_auth_methods(&env).is_empty());
}

#[test]
fn test_effective_page_size_prefers_runtime_choice() {
    let mut config = valid_config("device_code");
    assert_eq!(effective_page_size(None, &config), 10);
    config.page_size = Some(500);
    assert_eq!(effective_page_size(None, &config), 500);
    config.max_messages = Some(300);
    assert_eq!(effective_page_size(None, &config), 300);
    assert_eq!(effective_page_size(Some(250), &config), 250);
}

#[test]
fn test_section_accessors() {
    let config = valid_config("device_code");
    assert_eq!(config.batch().max_batch_size, 200);
    assert_eq!(config.batch().lock_timeout_secs, 10);
    assert_eq!(config.azure_ad().auth_method, "device_code");
    assert!(config.azure_ad().has_client_secret);
}

#[test]
fn test_max_messages_setting_and_default() {
    let mut config = valid_config("device_code");
    assert_eq!(config.max_messages(), 10);
    assert_eq!(config.page_size(), 100);
    config.max_messages = Some(25);
    assert_eq!(config.max_messages(), 25);
    config.max_messages = None;
    config.page_size = Some(400);
    assert_eq!(config.max_messages(), 400);
}

#[test]
fn test_reload_applies_only_a_valid_configuration() {
    let current = valid_config("device_code");
    let env = no_env();

    let (kept, result) =
        reload_config(Some(current.clone()), ConfigLoadResult::LoadError("missing file".to_string()), &env);
    assert_eq!(result, Err("missing file".to_string()));
    assert_eq!(kept.unwrap().azure_ad.auth_method, "device_code");

    let (kept, result) = reload_config(
        Some(current.clone()),
        ConfigLoadResult::DeserializeError("bad toml".to_string()),
        &env,
    );
    assert_eq!(result, Err("bad toml".to_string()));
    assert!(kept.is_some());

    let mut invalid = valid_config("client_secret");
    invalid.page_size = Some(5);
    invalid.batch.lock_timeout_secs = 60;
    let (kept, result) =
        reload_config(Some(current.clone()), ConfigLoadResult::Success(Box::new(invalid)), &env);
    assert_eq!(
        result,
        Err("Configuration validation failed: Invalid page_size: 5 (min: 100, max: 1000); Invalid lock_timeout_secs: 60 (limit: 30)".to_string())
    );
    assert_eq!(kept.unwrap().azure_ad.auth_method, "device_code");

    let fresh = valid_config("client_secret");
    let (kept, result) = reload_config(Some(current), ConfigLoadResult::Success(Box::new(fresh)), &env);
    assert_eq!(result, Ok(()));
    assert_eq!(kept.unwrap().azure_ad.auth_method, "client_secret");

    let (kept, result) = reload_config(None, ConfigLoadResult::LoadError("x".to_string()), &env);
    assert!(kept.is_none());
    assert!(result.is_err());
}
