use quetty::common::{Msg, PopupActivityMsg};
use quetty::error::{
    mount_error, theme_error, AppError, ContextualError, ErrorContext, ErrorReporter,
    ErrorSeverity,
};
use std::sync::mpsc;

#[test]
fn test_error_context_creation() {
    let context = ErrorContext::new("TestComponent", "test_operation");
    assert_eq!(context.component, "TestComponent");
    assert_eq!(context.operation, "test_operation");
    assert_eq!(context.user_message, "An error occurred in TestComponent. Please try again.");
}

#[test]
fn test_contextual_error_with_custom_message() {
    let error = AppError::Config("Test error".to_string());
    let context = ErrorContext::new("TestComponent", "test_operation").with_message("Custom message");

    let contextual = ContextualError::new(error, context);
    assert_eq!(contextual.context.user_message, "Custom message");
}

#[test]
fn test_contextual_error_default_message() {
    let error = AppError::Config("Test error".to_string());
    let context = ErrorContext::new("TestComponent", "test_operation");

    let contextual = ContextualError::new(error, context);
    assert_eq!(
        contextual.context.user_message,
        "An error occurred in TestComponent. Please try again."
    );
}

#[test]
fn test_critical_severity() {
    let context =
        ErrorContext::new("TestComponent", "test_operation").with_severity(ErrorSeverity::Critical);

    assert!(matches!(context.severity, ErrorSeverity::Critical));
}

#[test]
fn test_warning_severity_reporting() {
    let (tx, rx) = mpsc::channel();
    let reporter = ErrorReporter::new();
    let error = AppError::Component("Warning message".to_string());

    tx.send(reporter.report_warning(error, "TestComponent", "test_operation")).unwrap();

    let msg = rx.recv().expect("Should receive warning message");
    assert!(matches!(msg, Msg::PopupActivity(PopupActivityMsg::ShowWarning(_))));
}

#[test]
fn test_user_friendly_message_generation() {
    let context = ErrorContext::new("MessageLoader", "load_messages");
    assert_eq!(context.user_message, "An error occurred in MessageLoader. Please try again.");

    let context = ErrorContext::new("UnknownComponent", "unknown_operation");
    assert_eq!(context.user_message, "An error occurred in UnknownComponent. Please try again.");
}

#[test]
fn test_error_context_builder_pattern() {
    let context = ErrorContext::new("TestComponent", "test_operation")
        .with_message("Custom message")
        .with_technical_details("Technical information")
        .with_suggestion("Try this solution")
        .with_severity(ErrorSeverity::Warning);

    assert_eq!(context.user_message, "Custom message");
    assert_eq!(context.technical_details, Some("Technical information".to_string()));
    assert_eq!(context.suggestion, Some("Try this solution".to_string()));
    assert!(matches!(context.severity, ErrorSeverity::Warning));
}

#[test]
fn test_contextual_error_display() {
    let error = AppError::Config("Test error".to_string());
    let context = ErrorContext::new("TestComponent", "test_operation");

    let contextual = ContextualError::new(error, context);
    let display_str = contextual.to_string();

    assert!(display_str.contains("TestComponent"));
    assert!(display_str.contains("Test error"));
}

#[test]
fn test_new_with_message_method() {
    let context =
        ErrorContext::new("TestComponent", "test_operation").with_message("Custom error message");

    assert_eq!(context.component, "TestComponent");
    assert_eq!(context.operation, "test_operation");
    assert_eq!(context.user_message, "Custom error message");
    assert!(matches!(context.severity, ErrorSeverity::Error));
}

#[test]
fn test_format_additional_context_consistency() {
    let _reporter = ErrorReporter::new();

    let context = ErrorContext::new("TestComponent", "test_operation")
        .with_technical_details("Technical error details")
        .with_suggestion("Try this fix");

    let formatted = ErrorReporter::format_additional_context(&context);

    assert!(formatted.contains("🔍 Technical:"));
    assert!(formatted.contains("💡 Suggestion:"));
    assert!(formatted.contains("\n"));
}

#[test]
fn error_popup_is_formatted() {
    let (tx, rx) = mpsc::channel();
    let reporter = ErrorReporter::new();
    let context = ErrorContext::new("Loader", "load")
        .with_technical_details("timeout")
        .with_suggestion("retry");
    tx.send(reporter.report(AppError::ServiceBus("x".to_string()), context)).unwrap();
    match rx.recv().unwrap() {
        Msg::PopupActivity(PopupActivityMsg::ShowError(AppError::ServiceBus(text))) => {
            assert_eq!(
                text,
                "🔗 Service Bus Error\n\nAn error occurred in Loader. Please try again.\n\n🔍 Details: timeout\n\n💡 Suggestion: retry"
            );
        }
        other => panic!("unexpected {:?}", other),
    }
}

#[test]
fn display_forms_and_titles() {
    let e = AppError::Auth("denied".to_string());
    assert_eq!(e.to_string(), "Authentication Error: denied");
    assert_eq!(ErrorReporter::get_error_title(&e), "Authentication Error");
    assert_eq!(
        ErrorReporter::get_error_title(&AppError::Channel(String::new())),
        "Communication Error"
    );
    let contextual = ContextualError::new(e, ErrorContext::new("C", "o").with_message("Oops"));
    assert_eq!(contextual.to_string(), "Oops (Authentication Error: denied)");
    match ErrorReporter::create_warning_error("careful") {
        AppError::Component(m) => assert_eq!(m, "⚠️ Warning\n\ncareful"),
        other => panic!("unexpected {:?}", other),
    }
    let ctx = ErrorContext::new("C", "o").with_suggestion("s");
    assert_eq!(ErrorReporter::format_user_message(&ctx), "An error occurred in C. Please try again.\n\n💡 Suggestion: s");
    assert_eq!(ErrorReporter::format_additional_context(&ErrorContext::new("C", "o")), "");
}

#[test]
fn report_contexts() {
    let c = ErrorContext::service_bus("receive", "timeout", None);
    assert_eq!(c.component, "ServiceBus");
    assert_eq!(c.user_message, "Service bus receive failed");
    assert_eq!(c.suggestion, Some("Check your Azure connection and credentials".to_string()));
    let c = ErrorContext::bulk_operation("delete", 3, "boom");
    assert_eq!(c.user_message, "Failed to delete 3 messages");
    let c = ErrorContext::simple(&AppError::State("x".to_string()), "C", "o");
    assert_eq!(c.technical_details, Some("State Error: x".to_string()));
    let c = ErrorContext::critical("C", "o", "Fatal");
    assert!(matches!(c.severity, ErrorSeverity::Critical));
    assert_eq!(mount_error("Messages", "mount", "busy"), AppError::Component("Failed to mount Messages: busy".to_string()));
    assert_eq!(theme_error("load", "missing"), AppError::Component("Theme load failed: missing".to_string()));
}

#[test]
fn clipboard_failures_are_warnings() {
    let (tx, rx) = mpsc::channel();
    let reporter = ErrorReporter::new();
    tx.send(reporter.report_clipboard_error("copy", "no display")).unwrap();
    assert!(matches!(rx.recv().unwrap(), Msg::PopupActivity(PopupActivityMsg::ShowWarning(_))));
}

#[test]
fn helper_reports_send_their_popups() {
    let (tx, rx) = mpsc::channel();
    let reporter = ErrorReporter::new();
    tx.send(reporter.report_mount_error("Messages", "mount", "busy")).unwrap();
    match rx.recv().unwrap() {
        Msg::PopupActivity(PopupActivityMsg::ShowError(AppError::Component(text))) => {
            assert_eq!(
                text,
                "🎛️ Component Error\n\nAn error occurred in Messages. Please try again.\n\n🔍 Details: Component Error: Failed to mount Messages: busy"
            );
        }
        other => panic!("unexpected {:?}", other),
    }
    tx.send(reporter.report_config_error("keys", "bad toml")).unwrap();
    match rx.recv().unwrap() {
        Msg::PopupActivity(PopupActivityMsg::ShowError(AppError::Config(text))) => {
            assert_eq!(
                text,
                "⚙️ Configuration Error\n\nFailed to load keys configuration\n\n🔍 Details: bad toml\n\n💡 Suggestion: Check your configuration file and restart the application"
            );
        }
        other => panic!("unexpected {:?}", other),
    }
    tx.send(reporter.report_theme_error("load", "missing")).unwrap();
    match rx.recv().unwrap() {
        Msg::PopupActivity(PopupActivityMsg::ShowWarning(text)) => {
            assert_eq!(text, "An error occurred in ThemeManager. Please try again.");
        }
        other => panic!("unexpected {:?}", other),
    }
}
