use quetty::common::{ComponentId, Msg, QueueType};
use quetty::help::{BarSpanKind, HelpBar, HelpContent, HelpRenderer, HelpScreen, HelpSection, Shortcut};
use quetty::input::{KeyCode, KeyInput};
use quetty::keys::KeyBindingsConfig;

#[test]
fn help_bar_for_message_list() {
    let keys = KeyBindingsConfig::default();
    let bar = HelpBar::new();
    let text = bar.get_help_text(&ComponentId::Messages, Some(&QueueType::Main), Some(false), None, &keys);
    let texts: Vec<&str> = text.iter().map(|(t, _)| t.as_str()).collect();
    assert_eq!(texts[0], "[↑/↓]");
    assert_eq!(texts[1], " Navigate ");
    assert_eq!(texts[texts.len() - 2], "[q]");
    assert_eq!(texts[texts.len() - 1], " Quit");
    assert!(texts.contains(&"[d]"));
    assert!(texts.contains(&" DLQ"));
}

#[test]
fn help_bar_line_has_separators_between_pairs() {
    let keys = KeyBindingsConfig::default();
    let bar = HelpBar::new();
    let line = bar.bar_line(&ComponentId::ErrorPopup, None, None, None, &keys);
    let texts: Vec<&str> = line.iter().map(|(t, _)| t.as_str()).collect();
    assert_eq!(texts, vec!["[Enter/Esc]", " Close ", " │ ", "[h]", " Help ", " │ ", "[q]", " Quit"]);
    assert_eq!(line[0].1, BarSpanKind::Key);
    assert_eq!(line[1].1, BarSpanKind::Description);
    assert_eq!(line[2].1, BarSpanKind::Separator);
}

#[test]
fn bulk_mode_with_selection_offers_delete() {
    let keys = KeyBindingsConfig::default();
    let bar = HelpBar::new();
    let text = bar.get_context_shortcuts(&ComponentId::Messages, None, Some(true), Some(2), &keys);
    let texts: Vec<&str> = text.iter().map(|(t, _)| t.as_str()).collect();
    assert!(texts.contains(&" Delete "));
    assert!(texts.contains(&" Clear "));
    assert!(!texts.contains(&" DLQ"));
}

#[test]
fn help_content_names_close_keys() {
    let keys = KeyBindingsConfig::default();
    let content = HelpContent::from_config(&keys);
    assert_eq!(content.header_message, "Press [Esc] or [h] to close this help screen");
    assert_eq!(content.sections.len(), 9);
}

#[test]
fn shortcut_lines_are_padded() {
    let renderer = HelpRenderer::new();
    let line = renderer.render_shortcut(&Shortcut::single("[x]".to_string(), "Do it"));
    assert_eq!(line.len(), 2);
    assert_eq!(line[0].text, format!("  [x]{}", " ".repeat(17)));
    assert_eq!(line[1].text, "Do it");
    let section = HelpSection::new("TITLE", "*").add_single_key("[a]".to_string(), "A");
    let lines = renderer.render_sections(&[section]);
    assert_eq!(lines[0][0].text, "* TITLE");
    assert_eq!(lines.len(), 4);
}

#[test]
fn help_screen_closes_on_esc() {
    let mut screen = HelpScreen::new();
    assert_eq!(screen.on(KeyInput::plain(KeyCode::Esc)), Some(Msg::ToggleHelpScreen));
    assert_eq!(screen.on(KeyInput::plain(KeyCode::Enter)), None);
}
