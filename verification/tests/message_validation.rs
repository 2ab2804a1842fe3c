use quetty::message_validation::{
    CompleteMessageValidator, JsonFormatValidator, MessageContentValidator,
    MessageEncodingValidator, MessageSizeValidator, MessageValidationError,
};

#[test]
fn test_message_content_validator() {
    let validator = MessageContentValidator::new();

    assert!(validator.validate("Hello world").is_ok());
    assert!(validator.validate("   Valid content   ").is_ok());

    assert!(validator.validate("").is_err());
    assert!(validator.validate("   ").is_err());
    assert!(validator.validate("\n\t").is_err());
}

#[test]
fn test_message_size_validator() {
    let validator = MessageSizeValidator::new(10);

    assert!(validator.validate("hello").is_ok());
    assert!(validator.validate("1234567890").is_ok());

    assert!(validator.validate("12345678901").is_err());
}

#[test]
fn test_json_format_validator() {
    let validator = JsonFormatValidator;

    assert!(validator.validate(r#"{"key": "value"}"#).is_ok());
    assert!(validator.validate("[]").is_ok());
    assert!(validator.validate("null").is_ok());
    assert!(validator.validate("true").is_ok());
    assert!(validator.validate("42").is_ok());

    assert!(validator.validate("{key: value}").is_err());
    assert!(validator.validate("{'key': 'value'}").is_err());
    assert!(validator.validate("undefined").is_err());
}

#[test]
fn test_message_encoding_validator() {
    let validator = MessageEncodingValidator;

    assert!(validator.validate("Hello world").is_ok());
    assert!(validator.validate("Unicode: 🚀 ñ ü").is_ok());
    assert!(validator.validate("Newlines\nand\ttabs\rare\rok").is_ok());

    assert!(validator.validate("Bell\x07character").is_err());
    assert!(validator.validate("Null\x00character").is_err());
}

#[test]
fn test_complete_message_validator() {
    let validator = CompleteMessageValidator::new(100);

    assert!(validator.validate(r#"{"message": "Hello world"}"#).is_ok());

    assert!(validator.validate("").is_err());

    let large_json = format!(r#"{{"data": "{}"}}"#, "x".repeat(200));
    assert!(validator.validate(&large_json).is_err());

    assert!(validator.validate("not json").is_err());
}

#[test]
fn size_counts_bytes_not_characters() {
    // "ñ" is two bytes in UTF-8.
    let validator = MessageSizeValidator::new(3);
    assert!(validator.validate("ñx").is_ok());
    assert!(validator.validate("ññ").is_err());
}

#[test]
fn json_error_carries_parser_reason() {
    let validator = JsonFormatValidator;
    match validator.validate("{key: value}") {
        Err(MessageValidationError::InvalidJson { reason }) => {
            assert!(!reason.is_empty());
            let message = MessageValidationError::InvalidJson { reason: reason.clone() }.user_message();
            assert!(message.starts_with("Invalid JSON format!\n\nError: "));
            assert!(message.contains(&reason));
        }
        other => panic!("expected an InvalidJson error, got {:?}", other),
    }
}

#[test]
fn encoding_error_names_first_control_character() {
    let validator = MessageEncodingValidator;
    match validator.validate("ab\x07cd\x00") {
        Err(MessageValidationError::InvalidCharacters { characters }) => {
            assert!(characters.contains("'\\u{7}'"));
            assert!(characters.contains("position 2"));
        }
        other => panic!("expected an InvalidCharacters error, got {:?}", other),
    }
}

#[test]
fn complete_validator_reports_blank_before_json() {
    let validator = CompleteMessageValidator::new(100);
    match validator.validate("   ") {
        Err(MessageValidationError::Common(_)) => {}
        other => panic!("expected a common error, got {:?}", other),
    }
    match validator.validate("not json") {
        Err(MessageValidationError::InvalidJson { .. }) => {}
        other => panic!("expected an InvalidJson error, got {:?}", other),
    }
}

#[test]
fn azure_default_accepts_small_json() {
    let validator = CompleteMessageValidator::azure_default();
    assert!(validator.validate("{\"a\": 1}").is_ok());
}

#[test]
fn control_characters_are_shown_escaped() {
    let validator = MessageEncodingValidator;
    let text = |input: &str| match validator.validate(input) {
        Err(MessageValidationError::InvalidCharacters { characters }) => characters,
        other => panic!("unexpected {:?}", other),
    };
    assert_eq!(text("a\x00b"), "Control character at position 1: '\\0'");
    assert_eq!(text("ab\x07"), "Control character at position 2: '\\u{7}'");
    assert_eq!(text("é\x1b"), "Control character at position 2: '\\u{1b}'");
    assert_eq!(text("\u{7f}"), "Control character at position 0: '\\u{7f}'");
    assert_eq!(text("\u{85}"), "Control character at position 0: '\\u{85}'");
}
