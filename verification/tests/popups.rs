use quetty::common::{Msg, PopupActivityMsg};
use quetty::input::{KeyCode, KeyInput};
use quetty::popups::{
    Area, InputFieldStyle, NumberInputPopup, PageSizePopup, PasswordPopup, PopupCommand,
    PopupCommandResult, PopupLayout,
};

// ----- number input -----

#[test]
fn test_number_input_popup_creation() {
    let popup = NumberInputPopup::new("Test Title".to_string(), "Test message".to_string(), 1, 100);

    assert_eq!(popup.title, "Test Title");
    assert_eq!(popup.message, "Test message");
    assert_eq!(popup.min_value, 1);
    assert_eq!(popup.max_value, 100);
    assert!(popup.current_input.is_empty());
    assert!(!popup.is_mounted);
}

#[test]
fn test_default_value_calculation() {
    let popup = NumberInputPopup::new("Test".to_string(), "Test".to_string(), 5, 15);
    assert_eq!(popup.get_default_value(), 10);

    let popup_low_range = NumberInputPopup::new("Test".to_string(), "Test".to_string(), 20, 30);
    assert_eq!(popup_low_range.get_default_value(), 20);

    let popup_high_range = NumberInputPopup::new("Test".to_string(), "Test".to_string(), 1, 5);
    assert_eq!(popup_high_range.get_default_value(), 5);
}

#[test]
fn test_validation_with_empty_input() {
    let popup = NumberInputPopup::new("Test".to_string(), "Test".to_string(), 1, 100);

    let validation_state = popup.get_validation_state();
    assert!(validation_state.is_valid);
    assert!(validation_state.error_message.is_none());

    assert_eq!(popup.validate_and_get_number(), Some(10));
}

#[test]
fn test_validation_with_valid_input() {
    let mut popup = NumberInputPopup::new("Test".to_string(), "Test".to_string(), 1, 100);
    popup.current_input = "50".to_string();

    let validation_state = popup.get_validation_state();
    assert!(validation_state.is_valid);
    assert!(validation_state.error_message.is_none());

    assert_eq!(popup.validate_and_get_number(), Some(50));
}

#[test]
fn test_validation_with_invalid_input() {
    let mut popup = NumberInputPopup::new("Test".to_string(), "Test".to_string(), 1, 100);
    popup.current_input = "abc".to_string();

    let validation_state = popup.get_validation_state();
    assert!(!validation_state.is_valid);
    assert!(validation_state.error_message.is_some());

    assert_eq!(popup.validate_and_get_number(), None);
}

#[test]
fn test_validation_with_out_of_range_input() {
    let mut popup = NumberInputPopup::new("Test".to_string(), "Test".to_string(), 10, 20);
    popup.current_input = "5".to_string();

    let validation_state = popup.get_validation_state();
    assert!(!validation_state.is_valid);
    assert!(validation_state.error_message.is_some());

    assert_eq!(popup.validate_and_get_number(), None);
}

#[test]
fn test_render_input_field() {
    let popup = NumberInputPopup::new("Test".to_string(), "Test".to_string(), 1, 100);
    let input_line = popup.render_input_field();

    assert!(format!("{:?}", input_line).contains("Type a number"));
}

#[test]
fn test_render_validation_feedback() {
    let mut popup = NumberInputPopup::new("Test".to_string(), "Test".to_string(), 1, 100);

    assert!(popup.render_validation_feedback().is_none());

    popup.current_input = "invalid".to_string();
    assert!(popup.render_validation_feedback().is_some());
}

#[test]
fn test_number_input_popup_default_value_logic() {
    let popup = NumberInputPopup::new("Test".to_string(), "Enter number".to_string(), 5, 15);
    assert_eq!(popup.validate_and_get_number(), Some(10));

    let popup2 = NumberInputPopup::new("Test".to_string(), "Enter number".to_string(), 20, 30);
    assert_eq!(popup2.validate_and_get_number(), Some(20));

    let popup3 = NumberInputPopup::new("Test".to_string(), "Enter number".to_string(), 1, 5);
    assert_eq!(popup3.validate_and_get_number(), Some(5));
}

#[test]
fn number_input_styles_and_range_text() {
    let mut popup = NumberInputPopup::new("T".to_string(), "M".to_string(), 1, 100);
    assert_eq!(popup.render_input_field().1, InputFieldStyle::Placeholder);
    assert_eq!(popup.range_text(), "Range: 1 to 100 (Enter for default: 10)");
    popup.current_input = "42".to_string();
    assert_eq!(popup.render_input_field(), ("42".to_string(), InputFieldStyle::Valid));
    popup.current_input = "420".to_string();
    assert_eq!(popup.render_input_field().1, InputFieldStyle::Invalid);
    let feedback = popup.render_validation_feedback().unwrap();
    assert!(feedback.starts_with("⚠ "));
}

#[test]
fn number_input_keys() {
    let mut popup = NumberInputPopup::new("T".to_string(), "M".to_string(), 1, 100);
    popup.on(KeyInput::plain(KeyCode::Char('4')));
    popup.on(KeyInput::plain(KeyCode::Char('x')));
    popup.on(KeyInput::plain(KeyCode::Char('2')));
    assert_eq!(popup.current_input, "42");
    popup.on(KeyInput::plain(KeyCode::Backspace));
    assert_eq!(popup.current_input, "4");
    assert_eq!(
        popup.on(KeyInput::plain(KeyCode::Enter)),
        Some(Msg::PopupActivity(PopupActivityMsg::NumberInputResult(4)))
    );
    assert_eq!(
        popup.on(KeyInput::plain(KeyCode::Esc)),
        Some(Msg::PopupActivity(PopupActivityMsg::NumberInputResult(0)))
    );
}

// ----- page size -----

#[test]
fn test_page_size_popup_creation() {
    let popup = PageSizePopup::new();
    assert_eq!(popup.options.len(), 10);
    assert_eq!(popup.options[0], 100);
    assert_eq!(popup.options[9], 1000);
    assert_eq!(popup.selected_index, 0);
}

#[test]
fn test_get_selected_size() {
    let mut popup = PageSizePopup::new();
    assert_eq!(popup.get_selected_size(), 100);

    popup.selected_index = 4;
    assert_eq!(popup.get_selected_size(), 500);
}

#[test]
fn test_options_generation() {
    let popup = PageSizePopup::new();
    let expected: Vec<u32> = (100..=1000).step_by(100).collect();
    assert_eq!(popup.options, expected);
}

#[test]
fn test_navigation() {
    let mut popup = PageSizePopup::new();

    assert_eq!(popup.selected_index, 0);
    assert_eq!(popup.get_selected_size(), 100);

    popup.selected_index = 1;
    assert_eq!(popup.get_selected_size(), 200);

    popup.selected_index = 4;
    assert_eq!(popup.get_selected_size(), 500);

    popup.selected_index = 9;
    assert_eq!(popup.get_selected_size(), 1000);
}

#[test]
fn test_number_key_navigation() {
    let mut popup = PageSizePopup::new();

    if let Some(digit) = '3'.to_digit(10) {
        let target_size = digit * 100;
        if let Some(index) = popup.options.iter().position(|&size| size == target_size) {
            popup.selected_index = index;
        }
    }
    assert_eq!(popup.get_selected_size(), 300);

    if let Some(digit) = '7'.to_digit(10) {
        let target_size = digit * 100;
        if let Some(index) = popup.options.iter().position(|&size| size == target_size) {
            popup.selected_index = index;
        }
    }
    assert_eq!(popup.get_selected_size(), 700);
}

#[test]
fn test_arrow_key_events() {
    let mut popup = PageSizePopup::new();
    assert_eq!(popup.selected_index, 0);

    let result = popup.on(KeyInput::plain(KeyCode::Down));
    assert_eq!(result, Some(Msg::ForceRedraw));
    assert_eq!(popup.selected_index, 1);

    let result = popup.on(KeyInput::plain(KeyCode::Up));
    assert_eq!(result, Some(Msg::ForceRedraw));
    assert_eq!(popup.selected_index, 0);

    let result = popup.on(KeyInput::plain(KeyCode::Up));
    assert_eq!(result, None);
    assert_eq!(popup.selected_index, 0);

    popup.selected_index = popup.options.len() - 1;
    let result = popup.on(KeyInput::plain(KeyCode::Down));
    assert_eq!(result, None);
    assert_eq!(popup.selected_index, popup.options.len() - 1);
}

#[test]
fn test_jk_navigation() {
    let mut popup = PageSizePopup::new();
    assert_eq!(popup.selected_index, 0);

    let result = popup.on(KeyInput::plain(KeyCode::Char('j')));
    assert_eq!(result, Some(Msg::ForceRedraw));
    assert_eq!(popup.selected_index, 1);

    let result = popup.on(KeyInput::plain(KeyCode::Char('k')));
    assert_eq!(result, Some(Msg::ForceRedraw));
    assert_eq!(popup.selected_index, 0);

    let result = popup.on(KeyInput::plain(KeyCode::Char('k')));
    assert_eq!(result, None);
    assert_eq!(popup.selected_index, 0);

    popup.selected_index = popup.options.len() - 1;
    let result = popup.on(KeyInput::plain(KeyCode::Char('j')));
    assert_eq!(result, None);
    assert_eq!(popup.selected_index, popup.options.len() - 1);
}

#[test]
fn test_enter_and_escape_events() {
    let mut popup = PageSizePopup::new();

    if let Some(msg) = popup.on(KeyInput::plain(KeyCode::Enter)) {
        match msg {
            Msg::PopupActivity(PopupActivityMsg::PageSizeResult(size)) => {
                assert_eq!(size, 100);
            }
            _ => panic!("Enter should return PageSizeResult message"),
        }
    } else {
        panic!("Enter should return a message");
    }

    if let Some(msg) = popup.on(KeyInput::plain(KeyCode::Esc)) {
        match msg {
            Msg::PopupActivity(PopupActivityMsg::ClosePageSize) => {}
            _ => panic!("Escape should return ClosePageSize message"),
        }
    } else {
        panic!("Escape should return a message");
    }
}

#[test]
fn page_size_digit_keys_select_hundreds() {
    let mut popup = PageSizePopup::new();
    assert_eq!(popup.on(KeyInput::plain(KeyCode::Char('3'))), Some(Msg::ForceRedraw));
    assert_eq!(popup.get_selected_size(), 300);
    assert_eq!(popup.on(KeyInput::plain(KeyCode::Char('0'))), None);
    assert_eq!(popup.get_selected_size(), 300);
    assert_eq!(popup.on(KeyInput::with_control(KeyCode::Down)), None);
    assert_eq!(popup.selected_index, 2);
}

#[test]
fn page_size_render_options_marks_selection() {
    let mut popup = PageSizePopup::new();
    popup.selected_index = 1;
    let lines = popup.render_options();
    assert_eq!(lines.len(), 10);
    assert_eq!(lines[0], ("○ ".to_string(), "100 messages per page".to_string(), false));
    assert_eq!(lines[1], ("● ".to_string(), "200 messages per page".to_string(), true));
}

// ----- layout and password -----

#[test]
fn centered_layout_formula() {
    let area = Area { x: 0, y: 0, width: 100, height: 50 };
    let r = PopupLayout::centered(area, 60, 40);
    assert_eq!((r.x, r.y, r.width, r.height), (20, 15, 60, 20));
}

#[test]
fn oversized_popup_starts_at_the_corner() {
    let area = Area { x: 3, y: 4, width: 40, height: 20 };
    let r = PopupLayout::centered(area, 150, 120);
    assert_eq!((r.x, r.y, r.width, r.height), (3, 4, 60, 24));
}

#[test]
fn password_popup_masks_and_submits() {
    let mut popup = PasswordPopup::new();
    popup.on(KeyInput::plain(KeyCode::Char('a')));
    popup.on(KeyInput::plain(KeyCode::Char('b')));
    assert_eq!(popup.get_password(), "ab");
    assert_eq!(popup.masked_password(), "**_");
    assert_eq!(popup.perform(PopupCommand::Submit), PopupCommandResult::Submit);
}

#[test]
fn mask_depends_only_on_length() {
    let mut a = PasswordPopup::new();
    a.password = "abc".to_string();
    let mut b = PasswordPopup::new();
    b.password = "xyz".to_string();
    assert_eq!(a.masked_password(), b.masked_password());
    assert_eq!(PasswordPopup::new().masked_password(), "<empty>");
}

#[test]
fn answered_number_is_within_bounds() {
    let mut popup = NumberInputPopup::new("T".to_string(), "M".to_string(), 10, 20);
    for input in ["", "10", "15", "20", "9", "21", "+12"] {
        popup.current_input = input.to_string();
        if let Some(n) = popup.validate_and_get_number() {
            assert!((10..=20).contains(&n), "{input} gave {n}");
        }
    }
    popup.current_input = "+12".to_string();
    assert_eq!(popup.validate_and_get_number(), Some(12));
}
