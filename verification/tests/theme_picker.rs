use quetty::common::{Msg, ThemeActivityMsg};
use quetty::input::{KeyCode, KeyInput};
use quetty::keys::KeyBindingsConfig;
use quetty::theme_picker::{PickerMode, ThemePicker};

fn picker() -> ThemePicker {
    let mut p = ThemePicker::new();
    p.load_themes(Ok(vec![
        (
            "nightfox".to_string(),
            vec![
                ("duskfox".to_string(), "🦊".to_string(), "🌆".to_string()),
                ("nordfox".to_string(), "🦊".to_string(), "❄️".to_string()),
            ],
        ),
        ("quetty".to_string(), vec![("dark".to_string(), "🎨".to_string(), "🌙".to_string())]),
    ]));
    p
}

#[test]
fn fallback_theme_when_discovery_fails() {
    let mut p = ThemePicker::new();
    p.load_themes(Err("no themes".to_string()));
    assert_eq!(p.get_display_items(), vec!["🎨 quetty".to_string()]);
    p.on(KeyInput::plain(KeyCode::Enter), &KeyBindingsConfig::default());
    assert_eq!(
        p.get_display_items(),
        vec!["🎭 dark (quetty)".to_string(), "🎭 light (quetty)".to_string()]
    );
}

#[test]
fn select_theme_then_flavor() {
    let keys = KeyBindingsConfig::default();
    let mut p = picker();
    assert_eq!(p.title(), "  🎨 Select Theme  ");
    assert_eq!(p.on(KeyInput::plain(KeyCode::Enter), &keys), Some(Msg::ForceRedraw));
    assert_eq!(p.mode, PickerMode::SelectingFlavor);
    assert_eq!(p.title(), "  🎭 Select nightfox Flavor  ");
    assert_eq!(p.instructions(), "↑/↓/j/k: Navigate, Enter: Apply, Backspace/Esc: Back");
    p.on(KeyInput::plain(KeyCode::Down), &keys);
    assert_eq!(p.highlighted_index(), 1);
    assert_eq!(
        p.on(KeyInput::plain(KeyCode::Enter), &keys),
        Some(Msg::ThemeActivity(ThemeActivityMsg::ThemeSelected(
            "nightfox".to_string(),
            "nordfox".to_string()
        )))
    );
    p.on(KeyInput::plain(KeyCode::Esc), &keys);
    assert_eq!(p.mode, PickerMode::SelectingTheme);
    assert_eq!(
        p.on(KeyInput::plain(KeyCode::Esc), &keys),
        Some(Msg::ThemeActivity(ThemeActivityMsg::ThemePickerClosed))
    );
}

#[test]
fn moving_theme_resets_flavor() {
    let keys = KeyBindingsConfig::default();
    let mut p = picker();
    p.flavor_selected = 1;
    p.on(KeyInput::plain(KeyCode::Down), &keys);
    assert_eq!(p.theme_selected, 1);
    assert_eq!(p.flavor_selected, 0);
    p.on(KeyInput::plain(KeyCode::Down), &keys);
    assert_eq!(p.theme_selected, 1);
    p.on(KeyInput::plain(KeyCode::Char(keys.up())), &keys);
    assert_eq!(p.theme_selected, 0);
    assert_eq!(p.get_display_items(), vec!["🦊 nightfox".to_string(), "🎨 quetty".to_string()]);
}

#[test]
fn tab_switches_between_themes_and_flavors() {
    let keys = KeyBindingsConfig::default();
    let mut p = ThemePicker::new();
    assert_eq!(p.mode, PickerMode::SelectingTheme);
    let tab = KeyInput::plain(KeyCode::Tab);
    assert!(matches!(p.on(tab, &keys), Some(Msg::ForceRedraw)));
    assert_eq!(p.mode, PickerMode::SelectingFlavor);
    assert!(matches!(p.on(tab, &keys), Some(Msg::ForceRedraw)));
    assert_eq!(p.mode, PickerMode::SelectingTheme);

    let mut p = picker();
    p.on(KeyInput::plain(KeyCode::Down), &keys);
    p.on(tab, &keys);
    assert_eq!(p.mode, PickerMode::SelectingFlavor);
    assert_eq!(p.theme_selected, 1);
    assert_eq!(p.flavor_selected, 0);
}
