use quetty::common::{ConfigActivityMsg, Msg};
use quetty::help::BarSpanKind;
use quetty::config_screen::{
    ConfigEnvValues, ConfigFormData, ConfigScreen, ConfigScreenContext,
    FieldLabelStyle, FieldValueColor,
};
use quetty::input::{KeyCode, KeyInput};

fn context() -> ConfigScreenContext {
    ConfigScreenContext {
        has_encrypted_connection: false,
        connection_string_problem: None,
        reloaded_form: ConfigFormData::default(),
    }
}

#[test]
fn authentication_items_for_device_code() {
    let mut form = ConfigFormData::default();
    form.auth_method = "device_code".to_string();
    form.tenant_id = "t-1".to_string();
    let mut screen = ConfigScreen::new(form);
    screen.selected_field = 1;
    let items = screen.authentication_items();
    assert_eq!(items.len(), 6);
    assert_eq!(items[0].label, "*Authentication Method: ");
    assert_eq!(items[0].value, "Azure AD Device Code Flow (Enter to cycle)");
    assert_eq!(items[0].label_style, FieldLabelStyle::Normal);
    assert_eq!(items[0].value_color, FieldValueColor::DeviceCode);
    assert_eq!(items[1].label, "*Tenant ID: ");
    assert_eq!(items[1].value, "t-1");
    assert_eq!(items[1].label_style, FieldLabelStyle::Selected);
    assert_eq!(items[1].value_color, FieldValueColor::Plain);
    assert_eq!(items[2].label, "*Client ID: ");
    assert_eq!(items[2].value, "<empty>");
    assert_eq!(items[2].label_style, FieldLabelStyle::MissingRequired);
    assert_eq!(items[3].label, " Subscription ID: ");
    assert_eq!(items[3].label_style, FieldLabelStyle::Normal);
}

#[test]
fn secrets_are_masked_in_items() {
    let mut form = ConfigFormData::default();
    form.auth_method = "client_secret".to_string();
    form.client_secret = "abcdef".to_string();
    let screen = ConfigScreen::new(form);
    let items = screen.authentication_items();
    assert_eq!(items.len(), 8);
    assert_eq!(items[3].label, "*Client Secret: ");
    assert_eq!(items[3].value, "******");
    assert_eq!(items[0].value_color, FieldValueColor::ClientSecret);
}

#[test]
fn encrypted_connection_string_relaxes_requirement() {
    let form = ConfigScreen::load_current_config(
        true,
        "connection_string",
        ConfigEnvValues {
            tenant_id: None,
            client_id: None,
            client_secret: None,
            encrypted_client_secret_present: false,
            subscription_id: None,
            resource_group: None,
            namespace: None,
            queue_name: Some("orders".to_string()),
        },
    );
    let screen = ConfigScreen::new(form);
    assert!(screen.is_unlock_mode());
    let items = screen.authentication_items();
    assert_eq!(items[1].label, " Connection String: ");
    assert_eq!(items[1].value, "****** (encrypted data present - enter new to replace)");
    assert_eq!(items[3].value, "orders");
}

#[test]
fn action_line_has_separators() {
    let mut screen = ConfigScreen::new(ConfigFormData::default());
    let spans = screen.action_spans();
    let texts: Vec<&str> = spans.iter().map(|(t, _)| t.as_str()).collect();
    assert_eq!(
        texts,
        vec![
            "[Enter]", " edit field/cycle auth ", " │ ", "[↑↓]", " navigate ", " │ ", "[Esc]",
            " cancel ", " │ ", "[s]", " save for next startup ", " │ ", "[Ctrl+S]", " save & login"
        ]
    );
    assert_eq!(spans[0].1, BarSpanKind::Key);
    assert_eq!(spans[1].1, BarSpanKind::Description);
    assert_eq!(spans[2].1, BarSpanKind::Separator);

    screen.editing_mode = true;
    let spans = screen.action_spans();
    let texts: Vec<&str> = spans.iter().map(|(t, _)| t.as_str()).collect();
    assert_eq!(
        texts,
        vec!["Type to edit", " ", " │ ", "[Enter]", " confirm ", " │ ", "[Esc]", " cancel editing"]
    );
}

#[test]
fn validation_errors_by_method() {
    let mut form = ConfigFormData::default();
    let screen = ConfigScreen::new(form.clone());
    assert_eq!(
        screen.validate_config_internal(true, false, &None),
        vec!["Connection string is required for connection_string auth method".to_string()]
    );
    form.connection_string = "Endpoint=sb://x".to_string();
    let screen = ConfigScreen::new(form.clone());
    assert_eq!(
        screen.validate_config_internal(true, false, &Some("bad key".to_string())),
        vec![
            "Invalid connection string: bad key".to_string(),
            "Master password is required for connection string encryption".to_string()
        ]
    );
    form.auth_method = "device_code".to_string();
    let screen = ConfigScreen::new(form.clone());
    assert_eq!(screen.validate_config_internal(true, false, &None).len(), 2);
    form.auth_method = "other".to_string();
    let screen = ConfigScreen::new(form);
    assert_eq!(
        screen.validate_config_internal(true, false, &None),
        vec!["Invalid authentication method selected".to_string()]
    );
}

#[test]
fn keys_cycle_method_and_cancel() {
    let mut screen = ConfigScreen::new(ConfigFormData::default());
    let ctx = context();
    screen.on(KeyInput::plain(KeyCode::Enter), &ctx);
    assert_eq!(screen.form_data.auth_method, "device_code");
    assert_eq!(
        screen.on(KeyInput::plain(KeyCode::Esc), &ctx),
        Some(Msg::ConfigActivity(ConfigActivityMsg::Cancel))
    );
    // Saving with missing fields records the errors and hands nothing over.
    assert_eq!(screen.on(KeyInput::plain(KeyCode::Char('s')), &ctx), None);
    assert_eq!(screen.validation_errors.len(), 2);
}

#[test]
fn auth_method_cycles_back() {
    let ctx = context();
    let mut screen = ConfigScreen::new(ConfigFormData::default());
    screen.on(KeyInput::plain(KeyCode::Enter), &ctx);
    screen.on(KeyInput::plain(KeyCode::Enter), &ctx);
    assert_eq!(screen.form_data.auth_method, "client_secret");
    screen.on(KeyInput::plain(KeyCode::Enter), &ctx);
    assert_eq!(screen.form_data.auth_method, "connection_string");
}
