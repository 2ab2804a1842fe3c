use quetty::config::{
    AppConfig, AzureAdSettings, BatchLimits, LoggingConfig, ServicebusConfig, UIConfig,
};
use quetty::keys::KeyBindingsConfig;
use quetty::profiles::{
    invalidate_profile_cache, list_available_profiles, profile_config_source,
    profile_exists, profiles_from_entries, safe_profile_path, validate_profile_name,
    MasterPasswordStore, PageSizeSetting, ProfileCache, ProfileConfigSource, ProfileDirEntry,
};

#[test]
fn test_validate_profile_name_valid_names() {
    assert!(validate_profile_name("default").is_ok());
    assert!(validate_profile_name("dev").is_ok());
    assert!(validate_profile_name("production").is_ok());
    assert!(validate_profile_name("test-env").is_ok());
    assert!(validate_profile_name("test_env").is_ok());
    assert!(validate_profile_name("dev123").is_ok());
    assert!(validate_profile_name("a").is_ok());
    assert!(validate_profile_name("A-B_C1").is_ok());
}

#[test]
fn test_validate_profile_name_invalid_names() {
    assert!(validate_profile_name("").is_err());

    let long_name = "a".repeat(65);
    assert!(validate_profile_name(&long_name).is_err());

    assert!(validate_profile_name("../etc/passwd").is_err());
    assert!(validate_profile_name("../../root").is_err());
    assert!(validate_profile_name("..\\windows").is_err());
    assert!(validate_profile_name("test/../etc").is_err());
    assert!(validate_profile_name("test\\..\\etc").is_err());

    assert!(validate_profile_name("test/profile").is_err());
    assert!(validate_profile_name("test\\profile").is_err());
    assert!(validate_profile_name("/etc/passwd").is_err());
    assert!(validate_profile_name("C:\\Windows").is_err());

    assert!(validate_profile_name(".").is_err());
    assert!(validate_profile_name("..").is_err());

    assert!(validate_profile_name("test profile").is_err());
    assert!(validate_profile_name("test@profile").is_err());
    assert!(validate_profile_name("test#profile").is_err());
    assert!(validate_profile_name("test$profile").is_err());
    assert!(validate_profile_name("test%profile").is_err());
    assert!(validate_profile_name("test^profile").is_err());
    assert!(validate_profile_name("test&profile").is_err());
    assert!(validate_profile_name("test*profile").is_err());
    assert!(validate_profile_name("test(profile").is_err());
    assert!(validate_profile_name("test)profile").is_err());
    assert!(validate_profile_name("test+profile").is_err());
    assert!(validate_profile_name("test=profile").is_err());
    assert!(validate_profile_name("test[profile").is_err());
    assert!(validate_profile_name("test]profile").is_err());
    assert!(validate_profile_name("test{profile").is_err());
    assert!(validate_profile_name("test}profile").is_err());
    assert!(validate_profile_name("test|profile").is_err());
    assert!(validate_profile_name("test:profile").is_err());
    assert!(validate_profile_name("test;profile").is_err());
    assert!(validate_profile_name("test\"profile").is_err());
    assert!(validate_profile_name("test'profile").is_err());
    assert!(validate_profile_name("test<profile").is_err());
    assert!(validate_profile_name("test>profile").is_err());
    assert!(validate_profile_name("test,profile").is_err());
    assert!(validate_profile_name("test?profile").is_err());
    assert!(validate_profile_name("test`profile").is_err());
    assert!(validate_profile_name("test~profile").is_err());
    assert!(validate_profile_name("test!profile").is_err());
}

fn config_dir() -> Result<String, String> {
    Ok("/home/user/.config/quetty".to_string())
}

#[test]
fn test_safe_profile_path_security() {
    let result = safe_profile_path(config_dir(), "valid-profile");
    assert!(result.is_ok());
    if let Ok(path) = result {
        assert!(path.contains("profiles"));
        assert!(path.contains("valid-profile"));
        assert!(!path.contains(".."));
    }

    assert!(safe_profile_path(config_dir(), "../etc/passwd").is_err());
    assert!(safe_profile_path(config_dir(), "../../root").is_err());
    assert!(safe_profile_path(config_dir(), "..\\windows").is_err());

    assert!(safe_profile_path(config_dir(), "").is_err());

    assert!(safe_profile_path(config_dir(), "test/profile").is_err());
    assert!(safe_profile_path(config_dir(), "test\\profile").is_err());
}

#[test]
fn test_profile_cache_functionality() {
    let mut cache = ProfileCache::new();

    assert!(cache.get_profile_exists("test").is_none());

    cache.cache_profile_exists("test", true);
    assert_eq!(cache.get_profile_exists("test"), Some(true));

    cache.cache_profile_exists("test2", false);
    assert_eq!(cache.get_profile_exists("test2"), Some(false));

    assert!(cache.get_cached_profile_list().is_none());

    let test_profiles = vec!["profile1".to_string(), "profile2".to_string()];
    cache.cache_profile_list(test_profiles.clone());
    assert_eq!(cache.get_cached_profile_list(), Some(test_profiles));

    cache.invalidate();
    assert!(cache.get_profile_exists("test").is_none());
    assert!(cache.get_cached_profile_list().is_none());
}

#[test]
fn test_profile_validation_error_messages() {
    let result = validate_profile_name("");
    assert!(result.is_err());
    assert!(result.unwrap_err().contains("cannot be empty"));

    let result = validate_profile_name("../etc/passwd");
    assert!(result.is_err());
    let error_msg = result.unwrap_err();
    assert!(error_msg.contains("traversal"));

    let result = validate_profile_name("test profile");
    assert!(result.is_err());
    assert!(result
        .unwrap_err()
        .contains("letters, numbers, dashes, and underscores"));

    let long_name = "a".repeat(65);
    let result = validate_profile_name(&long_name);
    assert!(result.is_err());
    assert!(result.unwrap_err().contains("longer than 64 characters"));
}

#[test]
fn profile_name_of_64_bytes_is_accepted() {
    assert!(validate_profile_name(&"a".repeat(64)).is_ok());
}

#[test]
fn safe_profile_path_joins_under_profiles() {
    let path = safe_profile_path(Ok("/cfg".to_string()), "dev").unwrap();
    assert_eq!(path, "/cfg/profiles/dev");
    let err = safe_profile_path(Err("no home".to_string()), "dev").unwrap_err();
    assert_eq!(err, "Failed to determine config directory: no home");
    // A refused name is reported before a missing directory.
    let err = safe_profile_path(Err("no home".to_string()), "a b").unwrap_err();
    assert!(err.contains("letters, numbers"));
}

#[test]
fn cache_entries_expire_after_ttl() {
    let mut cache = ProfileCache::new();
    cache.cache_profile_exists_at("dev", true, 1_000);
    assert_eq!(cache.get_profile_exists_at("dev", 1_000), Some(true));
    assert_eq!(cache.get_profile_exists_at("dev", 30_999), Some(true));
    assert_eq!(cache.get_profile_exists_at("dev", 31_000), None);
    cache.cache_profile_list_at(vec!["dev".to_string()], 0);
    assert!(cache.get_cached_profile_list_at(29_999).is_some());
    assert!(cache.get_cached_profile_list_at(30_000).is_none());
}

#[test]
fn profile_exists_uses_cache_then_disk() {
    let mut cache = ProfileCache::new();
    assert!(profile_exists(&mut cache, "dev", 0, true));
    // The cached answer wins while it holds.
    assert!(profile_exists(&mut cache, "dev", 10, false));
    // After expiry the disk answer is taken again.
    assert!(!profile_exists(&mut cache, "dev", 40_000, false));
    invalidate_profile_cache(&mut cache);
    assert_eq!(cache.get_profile_exists_at("dev", 40_000), None);
}

#[test]
fn session_settings() {
    let mut store = MasterPasswordStore::new();
    assert!(!store.is_master_password_set());
    store.set_master_password("secret".to_string());
    assert_eq!(store.get_master_password(), Some("secret".to_string()));
    store.clear_master_password();
    assert!(store.get_master_password().is_none());

    let config = sample_config();
    let mut page = PageSizeSetting::new();
    assert_eq!(page.get_current_page_size(&config), 200);
    page.set_current_page_size(500);
    assert_eq!(page.get_current_page_size(&config), 500);
}

fn sample_config() -> AppConfig {
    AppConfig {
        page_size: Some(200),
        max_messages: None,
        crossterm_input_listener_interval_ms: None,
        crossterm_input_listener_retries: None,
        poll_timeout_ms: None,
        tick_interval_millis: None,
        queue_stats_display_enabled: None,
        queue_stats_cache_ttl_seconds: None,
        queue_stats_use_management_api: None,
        azure_resource_cache_ttl_seconds: None,
        azure_resource_cache_max_entries: None,
        batch: BatchLimits {
            max_batch_size: 200,
            operation_timeout_secs: 300,
            bulk_chunk_size: 200,
            bulk_processing_time_secs: 30,
            lock_timeout_secs: 10,
            max_messages_to_process: 1000,
        },
        ui: UIConfig::default(),
        keys: KeyBindingsConfig::default(),
        servicebus: ServicebusConfig::default(),
        azure_ad: AzureAdSettings {
            auth_method: "device_code".to_string(),
            has_tenant_id: false,
            has_client_id: false,
            has_client_secret: false,
        },
        logging: LoggingConfig::default(),
    }
}

fn entry(name: &str, is_dir: bool, has_env: bool) -> ProfileDirEntry {
    ProfileDirEntry { name: name.to_string(), is_dir, has_env }
}

#[test]
fn profiles_are_filtered_and_sorted() {
    let entries = vec![
        entry("prod", true, true),
        entry("dev", true, true),
        entry("no-env", true, false),
        entry("file", false, true),
        entry("bad name", true, true),
        entry("Dev2", true, true),
    ];
    assert_eq!(profiles_from_entries(&entries), vec!["Dev2", "dev", "prod"]);
}

#[test]
fn profile_list_is_cached() {
    let mut cache = ProfileCache::new();
    let first = vec![entry("b", true, true), entry("a", true, true)];
    assert_eq!(list_available_profiles(&mut cache, 0, &first), vec!["a", "b"]);
    let second = vec![entry("c", true, true)];
    assert_eq!(list_available_profiles(&mut cache, 1_000, &second), vec!["a", "b"]);
    assert_eq!(list_available_profiles(&mut cache, 31_000, &second), vec!["c"]);
}

#[test]
fn profile_config_sources() {
    let dir = || Ok("/cfg".to_string());
    assert_eq!(
        profile_config_source("a b", dir(), true, &vec![], false),
        ProfileConfigSource::LoadError(
            "Invalid profile name 'a b': Profile name can only contain letters, numbers, dashes, and underscores".to_string()
        )
    );
    assert_eq!(
        profile_config_source("dev", dir(), false, &vec![], false),
        ProfileConfigSource::LoadError(
            "Profile 'dev' does not exist.\n\nNo profiles found. Run 'quetty --setup' to create your first profile.\n\nTo create a new profile, run: quetty -p dev --setup".to_string()
        )
    );
    match profile_config_source("dev", dir(), false, &vec!["a".to_string(), "b".to_string()], false) {
        ProfileConfigSource::LoadError(m) => assert!(m.contains("Available profiles: a, b")),
        other => panic!("unexpected {:?}", other),
    }
    assert_eq!(
        profile_config_source("dev", dir(), true, &vec![], true),
        ProfileConfigSource::Load {
            env_file: "/cfg/profiles/dev/.env".to_string(),
            config_file: Some("/cfg/profiles/dev/config.toml".to_string())
        }
    );
    assert_eq!(
        profile_config_source("dev", dir(), true, &vec![], false),
        ProfileConfigSource::Load { env_file: "/cfg/profiles/dev/.env".to_string(), config_file: None }
    );
}

#[test]
fn profile_name_length_counts_characters() {
    assert!(validate_profile_name(&"é".repeat(33)).is_ok());
    assert!(validate_profile_name(&"é".repeat(64)).is_ok());
    let err = validate_profile_name(&"é".repeat(65)).unwrap_err();
    assert!(err.contains("longer than 64 characters"));
}
