use quetty::defaults::get_complete_default_config;

const MARKER: &str =
    "# =============================================================================\n# ENVIRONMENT VARIABLE REFERENCE";

#[test]
fn keys_are_spliced_before_env_reference() {
    let config = format!("[azure_ad]\nauth_method = \"device_code\"\n\n{MARKER}\n# AZURE_AD__TENANT_ID\n");
    let keys = "# Key bindings\n\n# more comments\n[keys]\nkey_quit = \"q\"\n";
    let complete = get_complete_default_config(&config, keys);
    assert_eq!(
        complete,
        format!("[azure_ad]\nauth_method = \"device_code\"\n\n\n[keys]\nkey_quit = \"q\"\n\n{MARKER}\n# AZURE_AD__TENANT_ID\n")
    );
    assert!(complete.contains("[azure_ad]"));
    assert!(complete.contains("[keys]"));
    assert!(complete.contains("key_quit"));
}

#[test]
fn keys_are_appended_without_env_reference() {
    let config = "[azure_ad]\n";
    let keys = "# header\n[keys]\n";
    assert_eq!(get_complete_default_config(config, keys), "[azure_ad]\n\n\n# header\n[keys]\n");
}

#[test]
fn first_marker_is_used() {
    let config = format!("a\n{MARKER}\nb\n{MARKER}\n");
    let complete = get_complete_default_config(&config, "[keys]");
    assert_eq!(complete, format!("a\n\n[keys]\n\n{MARKER}\nb\n{MARKER}\n"));
}
