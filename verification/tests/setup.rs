use quetty::setup::{
    choose_config_path, config_layout, ConfigLoadFailure, find_config_file, get_config_dir, get_config_file_path, get_themes_dir,
    is_config_initialized, ConnectionStringInput, SetupError, SetupWizard,
};

#[test]
fn test_config_dir_determination() {
    let result = get_config_dir(true, Some("/home/user".to_string()), None);
    assert!(result.is_ok());
    let config_dir = result.unwrap();
    assert!(config_dir.contains("quetty"));
}

#[test]
fn test_find_config_file_priority() {
    let standard = get_config_file_path(get_config_dir(true, Some("/home/user".to_string()), None));
    let result = find_config_file(false, false, standard, false);
    assert!(result.is_some() || result.is_none());
}

#[test]
fn config_file_priority_order() {
    let standard = || Ok("/home/user/.config/quetty/config.toml".to_string());
    assert_eq!(find_config_file(true, true, standard(), true), Some("config.toml".to_string()));
    assert_eq!(find_config_file(false, true, standard(), true), Some("../config.toml".to_string()));
    assert_eq!(
        find_config_file(false, false, standard(), true),
        Some("/home/user/.config/quetty/config.toml".to_string())
    );
    assert_eq!(find_config_file(false, false, standard(), false), None);
    assert_eq!(
        find_config_file(false, false, Err(SetupError::ConfigDirError("x".to_string())), true),
        None
    );
}

#[test]
fn config_dir_paths() {
    assert_eq!(
        get_config_dir(true, Some("/home/u".to_string()), Some("/etc".to_string())).unwrap(),
        "/home/u/.config/quetty"
    );
    assert_eq!(get_config_dir(false, Some("/home/u".to_string()), Some("/cfg".to_string())).unwrap(), "/cfg/quetty");
    let err = get_config_dir(true, None, None).unwrap_err();
    assert_eq!(err.to_string(), "Failed to determine config directory: Unable to determine config directory");
    assert_eq!(get_themes_dir(Ok("/c".to_string())).unwrap(), "/c/themes");
    assert!(is_config_initialized(Ok("/c/config.toml".to_string()), true));
    assert!(!is_config_initialized(Err(err), true));
    let layout = config_layout("/c");
    assert_eq!(layout.env_file, "/c/profiles/default/.env");
    assert_eq!(layout.profiles_dir, "/c/profiles");
}

#[test]
fn test_generate_env_content_device_code() {
    let env_content = SetupWizard::generate_env_content("device_code", None).unwrap();
    assert!(env_content.contains("AZURE_AD__AUTH_METHOD=device_code"));
    assert!(env_content.contains("Device code flow"));
}

#[test]
fn test_generate_env_content_client_secret() {
    let env_content = SetupWizard::generate_env_content("client_secret", None).unwrap();
    assert!(env_content.contains("AZURE_AD__AUTH_METHOD=client_secret"));
    assert!(env_content.contains("AZURE_AD__CLIENT_SECRET"));
}

#[test]
fn test_generate_env_content_connection_string() {
    let test_conn_str = "Endpoint=sb://test.servicebus.windows.net/;SharedAccessKeyName=RootManageSharedAccessKey;SharedAccessKey=testkey";
    let env_content =
        SetupWizard::generate_env_content("connection_string", Some(test_conn_str)).unwrap();
    assert!(env_content.contains("SERVICEBUS__CONNECTION_STRING="));
    assert!(env_content.contains(test_conn_str));
    assert!(env_content.contains("Connection string authentication"));
}

#[test]
fn test_generate_env_content_connection_string_none() {
    let env_content = SetupWizard::generate_env_content("connection_string", None).unwrap();
    assert!(env_content.contains("# SERVICEBUS__CONNECTION_STRING=your-connection-string"));
    assert!(env_content.contains("Connection string authentication"));
}

#[test]
fn wizard_answers() {
    assert_eq!(SetupWizard::parse_auth_choice(" 2 "), Some("client_secret"));
    assert_eq!(SetupWizard::parse_auth_choice("4"), None);
    assert_eq!(SetupWizard::check_connection_string("   "), ConnectionStringInput::Empty);
    assert_eq!(
        SetupWizard::check_connection_string("Endpoint=sb://x/"),
        ConnectionStringInput::InvalidFormat
    );
    let good = " Endpoint=sb://x/;SharedAccessKeyName=k;SharedAccessKey=v ";
    assert_eq!(
        SetupWizard::check_connection_string(good),
        ConnectionStringInput::Valid(good.trim().to_string())
    );
    assert!(SetupWizard::confirms_update(" Yes"));
    assert!(!SetupWizard::confirms_update("no"));
    assert!(!SetupWizard::confirms_update(""));
    assert_eq!(
        SetupWizard::check_profile_name("a b").unwrap_err(),
        "Invalid profile name: Profile name can only contain letters, numbers, dashes, and underscores"
    );
    assert_eq!(SetupWizard::completion_notes("connection_string").len(), 3);
    assert!(SetupWizard::completion_notes("other").is_empty());
}

#[test]
fn config_path_choice() {
    assert_eq!(
        choose_config_path(Some("my.toml"), Some("p.toml".to_string()), Some("d.toml".to_string())),
        Some("my.toml".to_string())
    );
    assert_eq!(
        choose_config_path(None, Some("p.toml".to_string()), Some("d.toml".to_string())),
        Some("p.toml".to_string())
    );
    assert_eq!(choose_config_path(None, None, Some("d.toml".to_string())), Some("d.toml".to_string()));
    assert_eq!(choose_config_path(None, None, None), None);
}

#[test]
fn config_failure_messages() {
    assert_eq!(
        ConfigLoadFailure::LoadFailed { path: "c.toml".to_string(), error: "bad".to_string() }.message(),
        "Configuration loading failed from c.toml: bad. Please check your config file and environment variables."
    );
    assert_eq!(
        ConfigLoadFailure::DefaultsNotWritten { error: "denied".to_string() }.message(),
        "No configuration file found and failed to initialize defaults: denied. Please create a config.toml file or run with --setup flag."
    );
    assert!(ConfigLoadFailure::CustomFileNotCreated { path: "x".to_string(), error: "e".to_string() }
        .message()
        .ends_with("3. Run without --config to use default locations"));
    assert_eq!(ConfigLoadFailure::NewConfigNotFound.message(), "Failed to find config file after initialization");
    assert_eq!(
        ConfigLoadFailure::NotDeserialized { error: "e".to_string() }.message(),
        "Failed to deserialize config: e"
    );
}
