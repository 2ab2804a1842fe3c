use quetty::validation_patterns::{
    CommonValidationError, NumericRangeValidator, StringLengthValidator, ValidationState,
};

#[test]
fn test_numeric_range_validator() {
    let validator = NumericRangeValidator::new("test field").with_range(1, 10);

    assert!(validator.validate("5").is_ok());
    assert!(validator.validate("1").is_ok());
    assert!(validator.validate("10").is_ok());

    assert!(validator.validate("0").is_err());
    assert!(validator.validate("11").is_err());
    assert!(validator.validate("abc").is_err());
    assert!(validator.validate("").is_err());
}

#[test]
fn test_string_length_validator() {
    let validator = StringLengthValidator::new("test field")
        .with_min_length(2)
        .with_max_length(5);

    assert!(validator.validate("ab").is_ok());
    assert!(validator.validate("abc").is_ok());
    assert!(validator.validate("abcde").is_ok());

    assert!(validator.validate("a").is_err());
    assert!(validator.validate("abcdef").is_err());
}

#[test]
fn test_validation_state() {
    let valid_state = ValidationState::valid();
    assert!(valid_state.is_valid);
    assert!(valid_state.error_message.is_none());

    let invalid_state = ValidationState::invalid("Error message");
    assert!(!invalid_state.is_valid);
    assert_eq!(invalid_state.error_message, Some("Error message".to_string()));

    let from_result_ok = ValidationState::from_result(Ok::<(), String>(()));
    assert!(from_result_ok.is_valid);

    let from_result_err = ValidationState::from_result(Err::<(), String>("Test error".to_string()));
    assert!(!from_result_err.is_valid);
    assert_eq!(from_result_err.error_message, Some("Test error".to_string()));
}

#[test]
fn numeric_errors_and_messages() {
    let validator = NumericRangeValidator::new("Page size").with_range(1, 10);
    let empty = validator.validate("   ").unwrap_err();
    assert_eq!(empty.user_message(), "Page size cannot be empty");
    let format = validator.validate("abc").unwrap_err();
    assert_eq!(format.user_message(), "Page size must be in valid number format");
    let range = validator.validate("-3").unwrap_err();
    assert_eq!(range.user_message(), "Page size must be between 1 and 10");
    assert!(validator.validate(" 7 ").is_ok());
}

#[test]
fn unbounded_numeric_validator_accepts_any_integer() {
    let validator = NumericRangeValidator::new("n");
    assert!(validator.validate("-9223372036854775808").is_ok());
    assert!(validator.validate("9223372036854775808").is_err());
}

#[test]
fn out_of_range_messages_by_bounds() {
    let lo = CommonValidationError::out_of_range("x", Some("1".to_string()), None);
    assert_eq!(lo.user_message(), "x must be at least 1");
    let hi = CommonValidationError::out_of_range("x", None, Some("9".to_string()));
    assert_eq!(hi.user_message(), "x must be at most 9");
    let none = CommonValidationError::out_of_range("x", None, None);
    assert_eq!(none.user_message(), "x is out of range");
}

#[test]
fn length_errors_report_lengths() {
    let validator = StringLengthValidator::new("Name").with_min_length(2).with_max_length(5);
    assert_eq!(
        validator.validate("a").unwrap_err().user_message(),
        "Name is too short (1 characters, minimum 2)"
    );
    assert_eq!(
        validator.validate("abcdef").unwrap_err().user_message(),
        "Name is too long (6 characters, maximum 5)"
    );
}
