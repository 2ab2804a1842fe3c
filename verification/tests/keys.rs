use quetty::common::{MessageActivityMsg, Msg, QueueActivityMsg, QueueType};
use quetty::input::{KeyCode, KeyInput, KeyModifiers};
use quetty::keys::KeyBindingsConfig;
use quetty::messages::{MessageBody, MessageModel, MessageState, Messages, PaginationInfo};

#[test]
fn default_keys_follow_the_documented_shortcuts() {
    let k = KeyBindingsConfig::default();
    assert_eq!(k.next_page(), 'n');
    assert_eq!(k.alt_next_page(), ']');
    assert_eq!(k.prev_page(), 'p');
    assert_eq!(k.alt_prev_page(), '[');
    assert_eq!(k.resend_from_dlq(), 'r');
    assert_eq!(k.toggle_dlq(), 'd');
    assert_ne!(k.delete_message(), 'd');
    assert_ne!(k.delete_message(), k.toggle_dlq());
    assert_eq!(k.alt_delete_message().to_ascii_lowercase(), 'x');
    assert_eq!(k.send_to_dlq(), 's');
}

fn dlq_list() -> Messages {
    let msgs = vec![MessageModel {
        sequence: 1,
        id: "id-1".to_string(),
        enqueued_at: "2024-01-01 00:00:00".to_string(),
        state: MessageState::Active,
        delivery_count: 1,
        body: MessageBody::RawString("body".to_string()),
    }];
    Messages::new_with_pagination(
        Some(&msgs),
        Some(PaginationInfo {
            current_page: 0,
            total_pages_loaded: 1,
            total_messages_loaded: 1,
            current_page_size: 1,
            has_next_page: false,
            has_previous_page: false,
            queue_name: Some("orders".to_string()),
            queue_type: QueueType::DeadLetter,
            bulk_mode: false,
            selected_count: 0,
            queue_total_messages: None,
            queue_stats_age_seconds: None,
        }),
    )
}

#[test]
fn documented_keys_act_in_the_message_list() {
    let k = KeyBindingsConfig::default();
    let mut list = dlq_list();
    assert!(matches!(
        list.on(KeyInput::plain(KeyCode::Char('r')), &k),
        Some(Msg::MessageActivity(MessageActivityMsg::BulkResendSelectedFromDLQ(false)))
    ));
    assert!(matches!(
        list.on(KeyInput::plain(KeyCode::Char('d')), &k),
        Some(Msg::QueueActivity(QueueActivityMsg::ToggleDeadLetterQueue))
    ));
    let ctrl_x = KeyInput {
        code: KeyCode::Char('x'),
        modifiers: KeyModifiers { shift: false, control: true, alt: false },
    };
    assert!(matches!(
        list.on(ctrl_x, &k),
        Some(Msg::MessageActivity(MessageActivityMsg::BulkDeleteSelected))
    ));
    assert!(matches!(
        list.on(KeyInput::plain(KeyCode::Delete), &k),
        Some(Msg::MessageActivity(MessageActivityMsg::BulkDeleteSelected))
    ));
}
