use quetty::common::{
    LoadingActivityMsg, Msg, NamespaceActivityMsg, QueueActivityMsg, SubscriptionSelectionMsg,
};
use quetty::input::{KeyCode, KeyInput};
use quetty::keys::KeyBindingsConfig;
use quetty::pickers::{
    GlobalKeyWatcher, LoadingIndicator, NamespacePicker, QueuePicker, Subscription,
    SubscriptionPicker, TextLabel,
};

#[test]
fn namespace_picker_moves_and_selects() {
    let keys = KeyBindingsConfig::default();
    let mut picker = NamespacePicker::new(Some(vec!["ns-a".to_string(), "ns-b".to_string()]));
    assert_eq!(picker.on(KeyInput::plain(KeyCode::Down), &keys), Some(Msg::ForceRedraw));
    assert_eq!(picker.state(), Some("ns-b".to_string()));
    picker.on(KeyInput::plain(KeyCode::Down), &keys);
    assert_eq!(picker.selected, 1);
    assert_eq!(
        picker.on(KeyInput::plain(KeyCode::Enter), &keys),
        Some(Msg::NamespaceActivity(NamespaceActivityMsg::NamespaceSelected))
    );
    let empty = NamespacePicker::new(None);
    assert_eq!(empty.state(), None);
}

#[test]
fn queue_picker_selects_queue() {
    let mut picker = QueuePicker::new(Some(vec!["orders".to_string(), "events".to_string()]));
    picker.on(KeyInput::plain(KeyCode::Char('j')));
    assert_eq!(
        picker.on(KeyInput::plain(KeyCode::Char('o'))),
        Some(Msg::QueueActivity(QueueActivityMsg::QueueSelected("events".to_string())))
    );
    assert_eq!(
        picker.on(KeyInput::plain(KeyCode::Esc)),
        Some(Msg::NamespaceActivity(NamespaceActivityMsg::NamespaceUnselected))
    );
}

#[test]
fn subscription_picker_answers_id() {
    let subs = vec![
        Subscription { subscription_id: "sub-1".to_string(), display_name: "Dev".to_string() },
        Subscription { subscription_id: "sub-2".to_string(), display_name: "Prod".to_string() },
    ];
    let mut picker = SubscriptionPicker::new(Some(subs));
    picker.on(KeyInput::plain(KeyCode::Down));
    assert_eq!(
        picker.on(KeyInput::plain(KeyCode::Enter)),
        Some(Msg::SubscriptionSelection(SubscriptionSelectionMsg::SubscriptionSelected(
            "sub-2".to_string()
        )))
    );
    assert_eq!(
        picker.on(KeyInput::plain(KeyCode::Esc)),
        Some(Msg::SubscriptionSelection(SubscriptionSelectionMsg::CancelSelection))
    );
}

#[test]
fn global_keys_outside_editing() {
    let keys = KeyBindingsConfig::default();
    let mut watcher = GlobalKeyWatcher::new(false);
    assert_eq!(watcher.on(KeyInput::plain(KeyCode::Char('q')), &keys), Some(Msg::AppClose));
    assert_eq!(watcher.on(KeyInput::plain(KeyCode::Char('h')), &keys), Some(Msg::ToggleHelpScreen));
    let mut editing = GlobalKeyWatcher::new(true);
    assert_eq!(editing.on(KeyInput::plain(KeyCode::Char('q')), &keys), None);
}

#[test]
fn loading_indicator_animates_and_cancels() {
    let mut indicator = LoadingIndicator::new("Loading", false, 1_000);
    assert_eq!(indicator.display_text, "⠋ Loading");
    indicator.update_progress("50%".to_string());
    assert_eq!(indicator.display_text, "⠋ Loading • 50%");
    indicator.update_animation(1_050, 100);
    assert_eq!(indicator.frame_index, 0);
    assert_eq!(indicator.on_tick(1_100, 100), Some(Msg::ForceRedraw));
    assert_eq!(indicator.frame_index, 1);
    assert_eq!(indicator.display_text, "⠙ Loading • 50%");
    assert_eq!(indicator.on(KeyInput::plain(KeyCode::Char('c'))), None);
    indicator.show_cancel_button("op-1".to_string());
    assert_eq!(indicator.display_text, "⠙ Loading\n\nPress 'c' to cancel");
    assert_eq!(
        indicator.on(KeyInput::plain(KeyCode::Char('c'))),
        Some(Msg::LoadingActivity(LoadingActivityMsg::Cancel))
    );
}

#[test]
fn labels_ignore_keys() {
    let mut label = TextLabel::new("hello".to_string());
    assert_eq!(label.on(KeyInput::plain(KeyCode::Enter)), None);
}
