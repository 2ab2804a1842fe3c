use quetty::common::{Msg, MessageActivityMsg, QueueActivityMsg, QueueType};
use quetty::input::{KeyCode, KeyInput};
use quetty::keys::KeyBindingsConfig;
use quetty::messages::{
    build_table_from_messages, calculate_responsive_layout, format_bulk_info,
    format_delivery_count_responsive, format_navigation_hints, format_queue_display,
    get_state_color, get_state_display, MessageBody, MessageIdentifier, MessageModel, MessageState, Messages,
    PaginationInfo, StateColor,
};

fn message(sequence: i64) -> MessageModel {
    MessageModel {
        sequence,
        id: format!("id-{sequence}"),
        enqueued_at: "2024-01-01 00:00:00".to_string(),
        state: MessageState::Active,
        delivery_count: 2,
        body: MessageBody::RawString("body".to_string()),
    }
}

fn info(bulk_mode: bool, queue_type: QueueType) -> PaginationInfo {
    PaginationInfo {
        current_page: 0,
        total_pages_loaded: 1,
        total_messages_loaded: 10,
        current_page_size: 10,
        has_next_page: true,
        has_previous_page: false,
        queue_name: Some("orders".to_string()),
        queue_type,
        bulk_mode,
        selected_count: 0,
        queue_total_messages: None,
        queue_stats_age_seconds: None,
    }
}

#[test]
fn queue_titles_and_hints() {
    assert_eq!(
        format_queue_display(&info(false, QueueType::Main)),
        "📬 Messages (orders) [Main → d:DLQ]"
    );
    let mut dlq = info(false, QueueType::DeadLetter);
    dlq.queue_name = None;
    assert_eq!(format_queue_display(&dlq), "💀 Dead Letter Queue (Unknown Queue) [DLQ → d:Main]");
    let mut i = info(true, QueueType::Main);
    assert_eq!(format_bulk_info(&i), "• Bulk mode");
    i.selected_count = 3;
    assert_eq!(format_bulk_info(&i), "• 3 selected");
    assert_eq!(format_navigation_hints(&i), "• [n]▶");
    i.has_previous_page = true;
    assert_eq!(format_navigation_hints(&i), "• ◀[p] [n]▶");
    i.has_next_page = false;
    i.has_previous_page = false;
    assert_eq!(format_navigation_hints(&i), "• End of pages");
}

#[test]
fn layout_widths_for_120_columns() {
    let (headers, widths, narrow) = calculate_responsive_layout(120, false);
    assert_eq!(headers, vec!["Sequence", "Message ID", "Enqueued At", "State", "Delivery Count"]);
    // content width 120 - 10 - 8 = 102
    assert_eq!(widths, vec![10, 35, 40, 10, 7]);
    assert!(!narrow);
    let (headers, widths, _) = calculate_responsive_layout(120, true);
    assert_eq!(headers.len(), 6);
    assert_eq!(headers[0], "");
    assert_eq!(widths[0], 3);
}

#[test]
fn delivery_count_is_right_aligned() {
    assert_eq!(format_delivery_count_responsive(7, 4, false), "   7");
    assert_eq!(format_delivery_count_responsive(12345, 3, true), "12345");
    assert_eq!(get_state_display(&MessageState::DeadLettered), "Dead-lettered");
}

#[test]
fn table_rows_with_checkboxes() {
    let msgs = vec![message(1), message(2)];
    let selected = vec![MessageIdentifier::from_message(&msgs[1])];
    let i = info(true, QueueType::Main);
    let (_, widths, _) = calculate_responsive_layout(120, true);
    let rows = build_table_from_messages(Some(&msgs), Some(&i), &selected, &widths, false);
    assert_eq!(rows.len(), 3);
    assert_eq!(rows[0][0], "○ ");
    assert_eq!(rows[1][0], "● ");
    assert_eq!(rows[1][1], "2");
    assert_eq!(rows[1][2], "id-2");
    assert!(rows[2].is_empty());
    assert!(build_table_from_messages(None, None, &[], &widths, false).is_empty());
}

#[test]
fn cursor_moves_and_previews() {
    let keys = KeyBindingsConfig::default();
    let msgs: Vec<MessageModel> = (0..10).map(message).collect();
    let mut list = Messages::new_with_pagination(Some(&msgs), Some(info(false, QueueType::Main)));
    assert_eq!(
        list.on(KeyInput::plain(KeyCode::Down), &keys),
        Some(Msg::MessageActivity(MessageActivityMsg::PreviewMessageDetails(1)))
    );
    assert_eq!(
        list.on(KeyInput::plain(KeyCode::PageDown), &keys),
        Some(Msg::MessageActivity(MessageActivityMsg::PreviewMessageDetails(5)))
    );
    list.on(KeyInput::plain(KeyCode::PageDown), &keys);
    assert_eq!(list.current_index(), 9);
    list.on(KeyInput::plain(KeyCode::Down), &keys);
    assert_eq!(list.current_index(), 9);
    list.on(KeyInput::plain(KeyCode::PageUp), &keys);
    assert_eq!(list.current_index(), 5);
    assert_eq!(
        list.on(KeyInput::plain(KeyCode::Enter), &keys),
        Some(Msg::MessageActivity(MessageActivityMsg::EditMessage(5)))
    );
    assert_eq!(
        list.on(KeyInput::plain(KeyCode::Esc), &keys),
        Some(Msg::QueueActivity(QueueActivityMsg::ExitQueueConfirmation))
    );
}

#[test]
fn dead_letter_queue_refuses_compose() {
    let keys = KeyBindingsConfig::default();
    let msgs = vec![message(1)];
    let mut list =
        Messages::new_with_pagination(Some(&msgs), Some(info(false, QueueType::DeadLetter)));
    match list.on(KeyInput::plain(KeyCode::Char(keys.compose_multiple())), &keys) {
        Some(Msg::ShowError(_)) => {}
        other => panic!("unexpected {:?}", other),
    }
    assert_eq!(
        list.on(KeyInput::with_shift(KeyCode::Char('S')), &keys),
        Some(Msg::MessageActivity(MessageActivityMsg::BulkResendSelectedFromDLQ(true)))
    );
}

#[test]
fn title_of_list() {
    let list = Messages::new(None);
    assert_eq!(list.title, " Messages ");
    assert_eq!(list.message_count(), 0);
}

#[test]
fn state_colour_groups() {
    assert_eq!(get_state_color(&MessageState::Scheduled), StateColor::Ready);
    assert_eq!(get_state_color(&MessageState::Abandoned), StateColor::Outcome);
    assert_eq!(get_state_color(&MessageState::DeadLettered), StateColor::Failed);
    assert_eq!(get_state_color(&MessageState::Deferred), StateColor::Deferred);
}

#[test]
fn down_then_up_returns_to_row() {
    let keys = KeyBindingsConfig::default();
    let msgs: Vec<MessageModel> = (0..3).map(message).collect();
    let mut list = Messages::new(Some(&msgs));
    list.on(KeyInput::plain(KeyCode::Down), &keys);
    let row = list.current_index();
    list.on(KeyInput::plain(KeyCode::Down), &keys);
    list.on(KeyInput::plain(KeyCode::Up), &keys);
    assert_eq!(list.current_index(), row);
}

#[test]
fn test_view_rows_lay_out_and_highlight() {
    let msgs = vec![message(1), message(2)];
    let selected = vec![MessageIdentifier { id: "id-2".to_string(), sequence: 2 }];
    let mut list = Messages::new_with_pagination_and_selections(
        Some(&msgs),
        Some(info(true, QueueType::Main)),
        selected,
    );
    list.move_down();
    let rows = list.view_rows(120);
    let (headers, widths, narrow) = calculate_responsive_layout(120, true);
    assert_eq!(list.headers, headers);
    assert_eq!(list.widths, widths);
    assert_eq!(list.narrow_layout, narrow);
    assert_eq!(rows.len(), 2);
    assert!(!rows[0].highlighted);
    assert!(rows[1].highlighted);
    assert_eq!(rows[0].cells[0], "○");
    assert_eq!(rows[1].cells[0], "●");
    assert_eq!(rows[1].cells[1], "2");
    assert_eq!(rows[1].cells[2], "id-2");
    assert_eq!(rows[1].cells[4], "Active");
    assert_eq!(rows[1].cells[5], format_delivery_count_responsive(2, widths[5] as usize, false));

    let mut plain = Messages::new(Some(&msgs));
    let rows = plain.view_rows(80);
    assert_eq!(rows.len(), 2);
    assert_eq!(rows[0].cells.len(), 5);
    assert_eq!(rows[0].cells[0], "1");
    assert!(rows[0].highlighted);
    assert!(Messages::new(None).view_rows(80).is_empty());
}
