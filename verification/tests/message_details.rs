use quetty::common::{MessageActivityMsg, Msg, PopupActivityMsg};
use quetty::error::AppError;
use quetty::input::{KeyCode, KeyInput};
use quetty::keys::KeyBindingsConfig;
use quetty::message_details::{
    clipboard_reply, status_area, DetailsAction, DisplayLine, FrameEmphasis, MessageDetails,
};
use quetty::messages::{MessageBody, MessageModel, MessageState};
use quetty::popups::Area;

fn message(body: &str) -> MessageModel {
    MessageModel {
        sequence: 7,
        id: "abc".to_string(),
        enqueued_at: "now".to_string(),
        state: MessageState::Active,
        delivery_count: 0,
        body: MessageBody::RawString(body.to_string()),
    }
}

#[test]
fn body_is_split_into_lines() {
    let details = MessageDetails::new(Some(message("one\ntwo\r\nthree")));
    assert_eq!(details.message_content, vec!["one", "two", "three"]);
    assert_eq!(details.get_edited_content(), "one\ntwo\nthree");
    let empty = MessageDetails::new(None);
    assert_eq!(empty.message_content, vec!["No message selected"]);
}

#[test]
fn editing_inserts_and_deletes() {
    let mut details = MessageDetails::new_with_focus(Some(message("ab")), true);
    details.toggle_edit_mode();
    assert!(details.is_editing);
    details.cursor_col = 1;
    details.insert_char('X');
    assert_eq!(details.message_content[0], "aXb");
    assert_eq!(details.cursor_col, 2);
    details.delete_char_backward();
    assert_eq!(details.message_content[0], "ab");
    details.insert_newline();
    assert_eq!(details.message_content, vec!["a", "b"]);
    details.toggle_edit_mode();
    assert!(details.is_dirty);
    details.restore_original_content();
    assert_eq!(details.message_content, vec!["ab"]);
    assert!(!details.is_dirty);
}

#[test]
fn status_and_title() {
    let keys = KeyBindingsConfig::default();
    let mut details = MessageDetails::new_with_focus(Some(message("x")), true);
    assert_eq!(details.title(), " 📄 Message Details ");
    assert_eq!(
        details.status_text(&keys),
        "Ln 1, Col 1 | Press 'e' or 'i' to edit | ESC: Back to messages"
    );
    assert_eq!(details.frame_emphasis(), FrameEmphasis::Focused);
    details.toggle_edit_mode();
    assert_eq!(details.frame_emphasis(), FrameEmphasis::Editing);
    assert_eq!(details.title(), " ✏️ Message Details - EDITING ");
    let composing = MessageDetails::new_for_composition_with_repeat_count(None, true, 3);
    assert!(composing.status_text(&keys).contains(" | Will send 3 times"));
    let unfocused = MessageDetails::new(None);
    assert_eq!(unfocused.frame_emphasis(), FrameEmphasis::Unfocused);
}

#[test]
fn status_line_sits_at_bottom() {
    let r = status_area(Area { x: 2, y: 3, width: 40, height: 10 });
    assert_eq!((r.x, r.y, r.width, r.height), (2, 12, 40, 1));
    let r = status_area(Area { x: 0, y: 5, width: 4, height: 0 });
    assert_eq!(r.y, 5);
}

#[test]
fn cursor_line_is_split_for_drawing() {
    let mut details = MessageDetails::new_with_focus(Some(message("héllo\nworld")), true);
    details.cursor_col = 1;
    let lines = details.content_lines(3);
    assert_eq!(lines.len(), 3);
    assert_eq!(
        lines[0],
        DisplayLine::Cursor { before: "h".to_string(), cursor: 'é', after: "llo".to_string() }
    );
    assert_eq!(lines[1], DisplayLine::Plain("world".to_string()));
    assert_eq!(lines[2], DisplayLine::Plain(String::new()));
}

#[test]
fn send_checks_the_body() {
    let keys = KeyBindingsConfig::default();
    let mut details = MessageDetails::new_with_focus(Some(message("{\"a\": 1}")), true);
    details.toggle_edit_mode();
    details.cursor_col = 8;
    details.insert_char(' ');
    match details.handle_event(KeyInput::with_control(KeyCode::Char(keys.send_edited_message())), &keys) {
        DetailsAction::Reply(Some(Msg::MessageActivity(MessageActivityMsg::SendEditedMessage(b)))) => {
            assert_eq!(b, "{\"a\": 1} ");
        }
        other => panic!("unexpected {:?}", other),
    }
    let mut bad = MessageDetails::new_with_focus(Some(message("not json")), true);
    bad.toggle_edit_mode();
    bad.insert_char('x');
    match bad.handle_event(KeyInput::with_control(KeyCode::Char(keys.send_edited_message())), &keys) {
        DetailsAction::Reply(Some(Msg::PopupActivity(PopupActivityMsg::ShowError(AppError::Config(m))))) => {
            assert!(m.starts_with("Invalid JSON format!"));
        }
        other => panic!("unexpected {:?}", other),
    }
}

#[test]
fn yank_copies_the_body() {
    let keys = KeyBindingsConfig::default();
    let mut details = MessageDetails::new_with_focus(Some(message("hello")), true);
    match details.handle_event(KeyInput::plain(KeyCode::Char(keys.yank_message())), &keys) {
        DetailsAction::CopyToClipboard { content, yank } => {
            assert_eq!(content, "hello");
            assert!(yank);
        }
        other => panic!("unexpected {:?}", other),
    }
    match clipboard_reply(true, false) {
        Msg::PopupActivity(PopupActivityMsg::ShowError(_)) => {}
        other => panic!("unexpected {:?}", other),
    }
}

#[test]
fn validate_message_content_reports_config_error() {
    let details = MessageDetails::new(None);
    assert!(details.validate_message_content("{}").is_ok());
    assert!(matches!(details.validate_message_content(""), Err(AppError::Config(_))));
}

#[test]
fn typing_then_backspace_restores_line() {
    let mut details = MessageDetails::new_with_focus(Some(message("aé\nb")), true);
    details.toggle_edit_mode();
    details.cursor_col = 1;
    let before = details.message_content.clone();
    details.insert_char('ü');
    assert_eq!(details.message_content[0], "aüé");
    details.delete_char_backward();
    assert_eq!(details.message_content, before);
    assert_eq!(details.cursor_col, 1);
}
