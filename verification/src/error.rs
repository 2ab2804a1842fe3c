//! Application errors, their context, and how they are reported to the user.
use vstd::prelude::*;
use crate::common::{Msg, PopupActivityMsg};
use crate::text::{concat2, concat3, owned};

verus! {

/// What went wrong, by area.
#[derive(Debug, Clone, PartialEq)]
pub enum AppError {
    ServiceBus(String),
    Component(String),
    State(String),
    Config(String),
    Auth(String),
    Channel(String),
}

/// The text carried by an error.
pub open spec fn app_error_text(e: AppError) -> Seq<char> {
    match e {
        AppError::ServiceBus(m) => m@,
        AppError::Component(m) => m@,
        AppError::State(m) => m@,
        AppError::Config(m) => m@,
        AppError::Auth(m) => m@,
        AppError::Channel(m) => m@,
    }
}

/// The same kind of error, carrying another text.
pub open spec fn same_kind(a: AppError, b: AppError) -> bool {
    match (a, b) {
        (AppError::ServiceBus(_), AppError::ServiceBus(_)) => true,
        (AppError::Component(_), AppError::Component(_)) => true,
        (AppError::State(_), AppError::State(_)) => true,
        (AppError::Config(_), AppError::Config(_)) => true,
        (AppError::Auth(_), AppError::Auth(_)) => true,
        (AppError::Channel(_), AppError::Channel(_)) => true,
        _ => false,
    }
}

/// The prefix naming the error's area in its displayed form.
pub open spec fn app_error_prefix(e: AppError) -> Seq<char> {
    match e {
        AppError::ServiceBus(_) => "Service Bus Error: "@,
        AppError::Component(_) => "Component Error: "@,
        AppError::State(_) => "State Error: "@,
        AppError::Config(_) => "Configuration Error: "@,
        AppError::Auth(_) => "Authentication Error: "@,
        AppError::Channel(_) => "Channel Error: "@,
    }
}

/// The title of the error popup for this kind of error.
pub open spec fn app_error_title(e: AppError) -> Seq<char> {
    match e {
        AppError::Config(_) => "Configuration Error"@,
        AppError::ServiceBus(_) => "Service Bus Error"@,
        AppError::Component(_) => "Component Error"@,
        AppError::State(_) => "Application State Error"@,
        AppError::Auth(_) => "Authentication Error"@,
        AppError::Channel(_) => "Communication Error"@,
    }
}

/// The emoji heading the error popup for this kind of error.
pub open spec fn app_error_emoji(e: AppError) -> Seq<char> {
    match e {
        AppError::Config(_) => "⚙️"@,
        AppError::ServiceBus(_) => "🔗"@,
        AppError::Component(_) => "🎛️"@,
        AppError::State(_) => "📊"@,
        AppError::Auth(_) => "🔐"@,
        AppError::Channel(_) => "📡"@,
    }
}

impl AppError {
    /// The text carried by the error.
    pub fn message(&self) -> (r: &str)
        ensures
            r@ == app_error_text(*self),
    {
        match self {
            AppError::ServiceBus(m) => m.as_str(),
            AppError::Component(m) => m.as_str(),
            AppError::State(m) => m.as_str(),
            AppError::Config(m) => m.as_str(),
            AppError::Auth(m) => m.as_str(),
            AppError::Channel(m) => m.as_str(),
        }
    }

    /// The displayed form: the area's prefix followed by the text.
    pub fn to_string(&self) -> (r: String)
        ensures
            r@ == app_error_prefix(*self) + app_error_text(*self),
    {
        let prefix = match self {
            AppError::ServiceBus(_) => "Service Bus Error: ",
            AppError::Component(_) => "Component Error: ",
            AppError::State(_) => "State Error: ",
            AppError::Config(_) => "Configuration Error: ",
            AppError::Auth(_) => "Authentication Error: ",
            AppError::Channel(_) => "Channel Error: ",
        };
        concat2(prefix, self.message())
    }

    /// The same kind of error with another text.
    pub fn with_text(&self, text: String) -> (r: AppError)
        ensures
            same_kind(*self, r),
            app_error_text(r) == text@,
    {
        match self {
            AppError::ServiceBus(_) => AppError::ServiceBus(text),
            AppError::Component(_) => AppError::Component(text),
            AppError::State(_) => AppError::State(text),
            AppError::Config(_) => AppError::Config(text),
            AppError::Auth(_) => AppError::Auth(text),
            AppError::Channel(_) => AppError::Channel(text),
        }
    }
}

/// How serious an error is, which decides how it is shown.
#[derive(Debug, Clone, Copy, PartialEq, Eq, Structural)]
pub enum ErrorSeverity {
    /// Shown as a warning popup.
    Warning,
    /// Shown as an error popup.
    Error,
    /// Shown as an error popup; the application may terminate.
    Critical,
}

/// Where an error happened and what to tell the user about it.
#[derive(Debug, Clone)]
pub struct ErrorContext {
    pub component: String,
    pub operation: String,
    pub user_message: String,
    pub technical_details: Option<String>,
    pub suggestion: Option<String>,
    pub severity: ErrorSeverity,
}

/// The message given when no specific message was set.
pub open spec fn fallback_message(component: Seq<char>) -> Seq<char> {
    "An error occurred in "@ + component + ". Please try again."@
}

impl ErrorContext {
    /// A context with the generic message for `component` and error severity.
    pub fn new(component: &str, operation: &str) -> (r: Self)
        ensures
            r.component@ == component@,
            r.operation@ == operation@,
            r.user_message@ == fallback_message(component@),
            r.technical_details is None,
            r.suggestion is None,
            r.severity == ErrorSeverity::Error,
    {
        ErrorContext {
            component: owned(component),
            operation: owned(operation),
            user_message: Self::generate_fallback_message(component),
            technical_details: None,
            suggestion: None,
            severity: ErrorSeverity::Error,
        }
    }

    fn generate_fallback_message(component: &str) -> (r: String)
        ensures
            r@ == fallback_message(component@),
    {
        concat3("An error occurred in ", component, ". Please try again.")
    }

    /// The same context with a specific user message.
    pub fn with_message(self, message: &str) -> (r: Self)
        ensures
            r.user_message@ == message@,
            r.component == self.component,
            r.operation == self.operation,
            r.technical_details == self.technical_details,
            r.suggestion == self.suggestion,
            r.severity == self.severity,
    {
        ErrorContext { user_message: owned(message), ..self }
    }

    /// The same context with technical details.
    pub fn with_technical_details(self, details: &str) -> (r: Self)
        ensures
            r.technical_details matches Some(d) && d@ == details@,
            r.component == self.component,
            r.operation == self.operation,
            r.user_message == self.user_message,
            r.suggestion == self.suggestion,
            r.severity == self.severity,
    {
        ErrorContext { technical_details: Some(owned(details)), ..self }
    }

    /// The same context with a suggestion for the user.
    pub fn with_suggestion(self, suggestion: &str) -> (r: Self)
        ensures
            r.suggestion matches Some(s) && s@ == suggestion@,
            r.component == self.component,
            r.operation == self.operation,
            r.user_message == self.user_message,
            r.technical_details == self.technical_details,
            r.severity == self.severity,
    {
        ErrorContext { suggestion: Some(owned(suggestion)), ..self }
    }

    /// The same context with another severity.
    pub fn with_severity(self, severity: ErrorSeverity) -> (r: Self)
        ensures
            r.severity == severity,
            r.component == self.component,
            r.operation == self.operation,
            r.user_message == self.user_message,
            r.technical_details == self.technical_details,
            r.suggestion == self.suggestion,
    {
        ErrorContext { severity, ..self }
    }
}

/// An error with its context.
#[derive(Debug, Clone)]
pub struct ContextualError {
    pub error: AppError,
    pub context: ErrorContext,
}

impl ContextualError {
    /// Pairs an error with its context.
    pub fn new(error: AppError, context: ErrorContext) -> (r: Self)
        ensures
            r.error == error,
            r.context == context,
    {
        ContextualError { error, context }
    }

    /// The displayed form: the user message, then the error in parentheses.
    pub fn to_string(&self) -> (r: String)
        ensures
            r@ == self.context.user_message@ + " ("@ + app_error_prefix(self.error)
                + app_error_text(self.error) + ")"@,
    {
        let shown = self.error.to_string();
        let mut r = concat3(self.context.user_message.as_str(), " (", shown.as_str());
        r.append(")");
        r
    }
}

/// The optional text of an optional string.
pub open spec fn opt_text(o: Option<String>) -> Option<Seq<char>> {
    match o {
        Some(s) => Some(s@),
        None => None,
    }
}

/// The lines of additional context written to the log: technical details and
/// suggestion, each on its own line after a leading newline; nothing when
/// neither is present.
pub open spec fn additional_context_text(
    details: Option<Seq<char>>,
    suggestion: Option<Seq<char>>,
) -> Seq<char> {
    match (details, suggestion) {
        (None, None) => Seq::empty(),
        (Some(d), None) => "\n🔍 Technical: "@ + d,
        (None, Some(s)) => "\n💡 Suggestion: "@ + s,
        (Some(d), Some(s)) => "\n🔍 Technical: "@ + d + "\n💡 Suggestion: "@ + s,
    }
}

/// The message a warning popup shows: the user message, then the suggestion
/// when there is one.
pub open spec fn user_message_text(message: Seq<char>, suggestion: Option<Seq<char>>) -> Seq<char> {
    match suggestion {
        Some(s) => message + "\n\n💡 Suggestion: "@ + s,
        None => message,
    }
}

/// The text of the error popup: emoji and title, the user message, then the
/// technical details and the suggestion when present.
pub open spec fn formatted_error_text(
    error: AppError,
    message: Seq<char>,
    details: Option<Seq<char>>,
    suggestion: Option<Seq<char>>,
) -> Seq<char> {
    let head = app_error_emoji(error) + " "@ + app_error_title(error) + "\n\n"@ + message;
    let with_details = match details {
        Some(d) => head + "\n\n🔍 Details: "@ + d,
        None => head,
    };
    match suggestion {
        Some(s) => with_details + "\n\n💡 Suggestion: "@ + s,
        None => with_details,
    }
}

/// What is shown to the user for an error in a context: a warning popup with
/// the user message, or an error popup with the formatted error.
pub open spec fn popup_for(error: AppError, context: ErrorContext, shown: Msg) -> bool {
    popup_shows(
        error,
        context.severity,
        context.user_message@,
        opt_text(context.technical_details),
        opt_text(context.suggestion),
        shown,
    )
}

/// `shown` is the popup for `error` at `severity`, with the given message,
/// technical details and suggestion: a warning popup with the message and
/// suggestion, or an error popup of the same kind with the formatted text.
pub open spec fn popup_shows(
    error: AppError,
    severity: ErrorSeverity,
    user_message: Seq<char>,
    details: Option<Seq<char>>,
    suggestion: Option<Seq<char>>,
    shown: Msg,
) -> bool {
    match severity {
        ErrorSeverity::Warning => shown matches Msg::PopupActivity(
            PopupActivityMsg::ShowWarning(w),
        ) && w@ == user_message_text(user_message, suggestion),
        _ => shown matches Msg::PopupActivity(PopupActivityMsg::ShowError(e)) && same_kind(
            e,
            error,
        ) && app_error_text(e) == formatted_error_text(error, user_message, details, suggestion),
    }
}

/// The popup sent for a component error with text `text`, reported with the
/// generic context of `component` (see [`ErrorContext::simple`]).
pub open spec fn simple_component_popup(text: Seq<char>, component: Seq<char>, shown: Msg) -> bool {
    exists|e: AppError|
        e is Component && app_error_text(e) == text && #[trigger] popup_shows(
            e,
            ErrorSeverity::Error,
            fallback_message(component),
            Some(app_error_prefix(e) + app_error_text(e)),
            None,
            shown,
        )
}

/// The error popup sent for a Service Bus error with text `text`, with the
/// given message, details and suggestion.
pub open spec fn service_bus_popup(
    text: Seq<char>,
    user_message: Seq<char>,
    details: Option<Seq<char>>,
    suggestion: Option<Seq<char>>,
    shown: Msg,
) -> bool {
    exists|e: AppError|
        e is ServiceBus && app_error_text(e) == text && #[trigger] popup_shows(
            e,
            ErrorSeverity::Error,
            user_message,
            details,
            suggestion,
            shown,
        )
}

/// The error popup sent for a configuration error with text `text`, with
/// the given message, details and suggestion.
pub open spec fn config_popup(
    text: Seq<char>,
    user_message: Seq<char>,
    details: Option<Seq<char>>,
    suggestion: Option<Seq<char>>,
    shown: Msg,
) -> bool {
    exists|e: AppError|
        e is Config && app_error_text(e) == text && #[trigger] popup_shows(
            e,
            ErrorSeverity::Error,
            user_message,
            details,
            suggestion,
            shown,
        )
}

/// The popup sent for a component error with text `text`, reported as a
/// warning of `component` (see [`ErrorContext::warning`]).
pub open spec fn warning_component_popup(text: Seq<char>, component: Seq<char>, shown: Msg) -> bool {
    exists|e: AppError|
        e is Component && app_error_text(e) == text && #[trigger] popup_shows(
            e,
            ErrorSeverity::Warning,
            fallback_message(component),
            None,
            None,
            shown,
        )
}

/// Works out what is shown to the user for an error: each report gives the
/// popup message, which the application hands to its message channel.
pub struct ErrorReporter;

impl ErrorReporter {
    /// A reporter.
    pub fn new() -> (r: Self) {
        ErrorReporter
    }

    /// Reports an error with the generic context of `component`, carrying the
    /// error's displayed form as technical details (see
    /// [`ErrorContext::simple`]).
    pub fn report_simple(&self, error: AppError, component: &str, operation: &str) -> (popup: Msg)
        ensures
            popup_shows(
                error,
                ErrorSeverity::Error,
                fallback_message(component@),
                Some(app_error_prefix(error) + app_error_text(error)),
                None,
                popup,
            ),
    {
        let context = ErrorContext::simple(&error, component, operation);
        self.report(error, context)
    }

    /// Reports an error as a warning (see [`ErrorContext::warning`]).
    pub fn report_warning(&self, error: AppError, component: &str, operation: &str) -> (popup: Msg)
        ensures
            popup_shows(
                error,
                ErrorSeverity::Warning,
                fallback_message(component@),
                None,
                None,
                popup,
            ),
    {
        let context = ErrorContext::warning(component, operation);
        self.report(error, context)
    }

    /// Reports an error after which the application terminates (see
    /// [`ErrorContext::critical`]).
    pub fn report_critical_and_exit(
        &self,
        error: AppError,
        component: &str,
        operation: &str,
        user_message: &str,
    ) -> (popup: Msg)
        ensures
            popup_shows(
                error,
                ErrorSeverity::Critical,
                user_message@,
                None,
                Some("The application will terminate. Please fix the issue and restart."@),
                popup,
            ),
    {
        let context = ErrorContext::critical(component, operation, user_message);
        self.report(error, context)
    }

    /// Reports an error with a generic application context.
    pub fn report_error(&self, error: AppError) -> (popup: Msg)
        ensures
            popup_shows(
                error,
                ErrorSeverity::Error,
                fallback_message("Application"@),
                Some(app_error_prefix(error) + app_error_text(error)),
                None,
                popup,
            ),
    {
        self.report_simple(error, "Application", "operation")
    }

    /// Reports an error in its context: the popup of [`popup_for`], to be
    /// sent to the user.
    pub fn report(&self, error: AppError, context: ErrorContext) -> (popup: Msg)
        ensures
            popup_for(error, context, popup),
    {
        Self::popup_message(&error, &context)
    }

    /// The line written to the log for an error in its context: its place,
    /// the user message with the error, and the additional context; critical
    /// errors are marked as such.
    pub fn log_line(error: &AppError, context: &ErrorContext) -> (r: String)
        ensures
            r@ == (if context.severity == ErrorSeverity::Critical {
                "[CRITICAL] "@
            } else {
                Seq::<char>::empty()
            }) + "["@ + context.component@ + ":"@ + context.operation@ + "] "@
                + context.user_message@ + " ("@ + app_error_prefix(*error) + app_error_text(*error)
                + ") "@ + additional_context_text(
                opt_text(context.technical_details),
                opt_text(context.suggestion),
            ),
    {
        let mut r = String::new();
        if context.severity == ErrorSeverity::Critical {
            r.append("[CRITICAL] ");
        }
        r.append("[");
        r.append(context.component.as_str());
        r.append(":");
        r.append(context.operation.as_str());
        r.append("] ");
        r.append(context.user_message.as_str());
        r.append(" (");
        let shown = error.to_string();
        r.append(shown.as_str());
        r.append(") ");
        let extra = Self::format_additional_context(context);
        r.append(extra.as_str());
        assert(r@ =~= (if context.severity == ErrorSeverity::Critical {
            "[CRITICAL] "@
        } else {
            Seq::<char>::empty()
        }) + "["@ + context.component@ + ":"@ + context.operation@ + "] "@
            + context.user_message@ + " ("@ + app_error_prefix(*error) + app_error_text(*error)
            + ") "@ + additional_context_text(
            opt_text(context.technical_details),
            opt_text(context.suggestion),
        ));
        r
    }

    /// The popup message shown for an error in its context.
    pub fn popup_message(error: &AppError, context: &ErrorContext) -> (r: Msg)
        ensures
            popup_for(*error, *context, r),
    {
        match context.severity {
            ErrorSeverity::Warning => Msg::PopupActivity(
                PopupActivityMsg::ShowWarning(Self::format_user_message(context)),
            ),
            _ => Msg::PopupActivity(
                PopupActivityMsg::ShowError(Self::create_formatted_error(error, context)),
            ),
        }
    }

    /// Technical details and suggestion, as written to the log.
    pub fn format_additional_context(context: &ErrorContext) -> (r: String)
        ensures
            r@ == additional_context_text(
                opt_text(context.technical_details),
                opt_text(context.suggestion),
            ),
    {
        let mut r = String::new();
        if let Some(details) = &context.technical_details {
            r.append("\n🔍 Technical: ");
            r.append(details.as_str());
        }
        if let Some(suggestion) = &context.suggestion {
            r.append("\n💡 Suggestion: ");
            r.append(suggestion.as_str());
        }
        proof {
            assert(r@ =~= additional_context_text(
                opt_text(context.technical_details),
                opt_text(context.suggestion),
            ));
        }
        r
    }

    /// The message of a warning popup.
    pub fn format_user_message(context: &ErrorContext) -> (r: String)
        ensures
            r@ == user_message_text(context.user_message@, opt_text(context.suggestion)),
    {
        let mut message = owned(context.user_message.as_str());
        if let Some(suggestion) = &context.suggestion {
            message.append("\n\n💡 Suggestion: ");
            message.append(suggestion.as_str());
        }
        message
    }

    /// A component error announcing a warning.
    pub fn create_warning_error(message: &str) -> (r: AppError)
        ensures
            r matches AppError::Component(m) && m@ == "⚠️ Warning"@ + "\n\n"@ + message@,
    {
        let mut text = owned("⚠️ Warning");
        text.append("\n\n");
        text.append(message);
        AppError::Component(text)
    }

    /// The error shown in the popup: same kind, with the formatted text.
    pub fn create_formatted_error(error: &AppError, context: &ErrorContext) -> (r: AppError)
        ensures
            same_kind(r, *error),
            app_error_text(r) == formatted_error_text(
                *error,
                context.user_message@,
                opt_text(context.technical_details),
                opt_text(context.suggestion),
            ),
    {
        let emoji = match error {
            AppError::Config(_) => "⚙️",
            AppError::ServiceBus(_) => "🔗",
            AppError::Component(_) => "🎛️",
            AppError::State(_) => "📊",
            AppError::Auth(_) => "🔐",
            AppError::Channel(_) => "📡",
        };
        let title = Self::get_error_title(error);
        let mut text = concat3(emoji, " ", title.as_str());
        text.append("\n\n");
        text.append(context.user_message.as_str());
        if let Some(details) = &context.technical_details {
            text.append("\n\n🔍 Details: ");
            text.append(details.as_str());
        }
        if let Some(suggestion) = &context.suggestion {
            text.append("\n\n💡 Suggestion: ");
            text.append(suggestion.as_str());
        }
        error.with_text(text)
    }

    /// The popup title for this kind of error.
    pub fn get_error_title(error: &AppError) -> (r: String)
        ensures
            r@ == app_error_title(*error),
    {
        match error {
            AppError::Config(_) => owned("Configuration Error"),
            AppError::ServiceBus(_) => owned("Service Bus Error"),
            AppError::Component(_) => owned("Component Error"),
            AppError::State(_) => owned("Application State Error"),
            AppError::Auth(_) => owned("Authentication Error"),
            AppError::Channel(_) => owned("Communication Error"),
        }
    }

    /// Reports a failure to mount or unmount a component.
    pub fn report_mount_error(&self, component: &str, operation: &str, error: &str) -> (popup: Msg)
        ensures
            simple_component_popup(
                "Failed to "@ + operation@ + " "@ + component@ + ": "@ + error@,
                component@,
                popup,
            ),
    {
        self.report_simple(mount_error(component, operation, error), component, operation)
    }

    /// Reports a failure to send on the message channel.
    pub fn report_send_error(&self, context: &str, error: &str) -> (popup: Msg)
        ensures
            simple_component_popup(
                "Failed to send "@ + context@ + ": "@ + error@,
                "MessageChannel"@,
                popup,
            ),
    {
        self.report_simple(send_error(context, error), "MessageChannel", "send_message")
    }

    /// Reports a failure to activate a component.
    pub fn report_activation_error(&self, component: &str, error: &str) -> (popup: Msg)
        ensures
            simple_component_popup(
                "Failed to activate "@ + component@ + ": "@ + error@,
                component@,
                popup,
            ),
    {
        self.report_simple(activation_error(component, error), component, "activate")
    }

    /// Reports a failure to update the global key watcher.
    pub fn report_key_watcher_error(&self, error: &str) -> (popup: Msg)
        ensures
            simple_component_popup(
                "Failed to update global key watcher: "@ + error@,
                "GlobalKeyWatcher"@,
                popup,
            ),
    {
        self.report_simple(key_watcher_error(error), "GlobalKeyWatcher", "update_state")
    }

    /// Reports a clipboard failure, as a warning.
    pub fn report_clipboard_error(&self, operation: &str, error: &str) -> (popup: Msg)
        ensures
            warning_component_popup(
                "Failed to "@ + operation@ + ": "@ + error@,
                "Clipboard"@,
                popup,
            ),
    {
        self.report_warning(clipboard_error(operation, error), "Clipboard", operation)
    }

    /// Reports a theme failure, as a warning.
    pub fn report_theme_error(&self, operation: &str, error: &str) -> (popup: Msg)
        ensures
            warning_component_popup(
                "Theme "@ + operation@ + " failed: "@ + error@,
                "ThemeManager"@,
                popup,
            ),
    {
        self.report_warning(theme_error(operation, error), "ThemeManager", operation)
    }

    /// Reports a failure to load data (see [`ErrorContext::loading`]).
    pub fn report_loading_error(&self, component: &str, operation: &str, error: &str) -> (popup: Msg)
        ensures
            service_bus_popup(
                error@,
                "Failed to "@ + operation@ + " data"@,
                Some(error@),
                Some("Check your connection and try again"@),
                popup,
            ),
    {
        self.report(AppError::ServiceBus(owned(error)), ErrorContext::loading(component, operation, error))
    }

    /// Reports a Service Bus failure (see [`ErrorContext::service_bus`]).
    pub fn report_service_bus_error(&self, operation: &str, error: &str, suggestion: Option<&str>) -> (popup: Msg)
        ensures
            service_bus_popup(
                error@,
                "Service bus "@ + operation@ + " failed"@,
                Some(error@),
                Some(
                    match suggestion {
                        Some(h) => h@,
                        None => "Check your Azure connection and credentials"@,
                    },
                ),
                popup,
            ),
    {
        self.report(
            AppError::ServiceBus(owned(error)),
            ErrorContext::service_bus(operation, error, suggestion),
        )
    }

    /// Reports a failed bulk operation on `count` messages (see
    /// [`ErrorContext::bulk_operation`]).
    pub fn report_bulk_operation_error(&self, operation: &str, count: usize, error: &str) -> (popup: Msg)
        ensures
            service_bus_popup(
                error@,
                "Failed to "@ + operation@ + " "@ + crate::text::decimal(count as nat) + " messages"@,
                Some(error@),
                Some("Some messages may have been processed. Check the queue and try again if needed"@),
                popup,
            ),
    {
        self.report(
            AppError::ServiceBus(owned(error)),
            ErrorContext::bulk_operation(operation, count, error),
        )
    }

    /// Reports a configuration failure (see [`ErrorContext::config_load`]).
    pub fn report_config_error(&self, config_type: &str, error: &str) -> (popup: Msg)
        ensures
            config_popup(
                error@,
                "Failed to load "@ + config_type@ + " configuration"@,
                Some(error@),
                Some("Check your configuration file and restart the application"@),
                popup,
            ),
    {
        self.report(AppError::Config(owned(error)), ErrorContext::config_load(config_type, error))
    }
}

/// A failure to mount or unmount `component`.
pub fn mount_error(component: &str, operation: &str, error: &str) -> (r: AppError)
    ensures
        r matches AppError::Component(t) && t@ == "Failed to "@ + operation@ + " "@ + component@
            + ": "@ + error@,
{
    let mut text = concat3("Failed to ", operation, " ");
    text.append(component);
    text.append(": ");
    text.append(error);
    AppError::Component(text)
}

/// A failure to send `context` on the message channel.
pub fn send_error(context: &str, error: &str) -> (r: AppError)
    ensures
        r matches AppError::Component(t) && t@ == "Failed to send "@ + context@ + ": "@ + error@,
{
    let mut text = concat3("Failed to send ", context, ": ");
    text.append(error);
    AppError::Component(text)
}

/// A failure to activate `component`.
pub fn activation_error(component: &str, error: &str) -> (r: AppError)
    ensures
        r matches AppError::Component(t) && t@ == "Failed to activate "@ + component@ + ": "@
            + error@,
{
    let mut text = concat3("Failed to activate ", component, ": ");
    text.append(error);
    AppError::Component(text)
}

/// A failure to update the global key watcher.
pub fn key_watcher_error(error: &str) -> (r: AppError)
    ensures
        r matches AppError::Component(t) && t@ == "Failed to update global key watcher: "@ + error@,
{
    AppError::Component(concat2("Failed to update global key watcher: ", error))
}

/// A clipboard failure.
pub fn clipboard_error(operation: &str, error: &str) -> (r: AppError)
    ensures
        r matches AppError::Component(t) && t@ == "Failed to "@ + operation@ + ": "@ + error@,
{
    let mut text = concat3("Failed to ", operation, ": ");
    text.append(error);
    AppError::Component(text)
}

/// A theme failure.
pub fn theme_error(operation: &str, error: &str) -> (r: AppError)
    ensures
        r matches AppError::Component(t) && t@ == "Theme "@ + operation@ + " failed: "@ + error@,
{
    let mut text = concat3("Theme ", operation, " failed: ");
    text.append(error);
    AppError::Component(text)
}

impl ErrorContext {
    /// The context of a plain report: the generic message, with the error's
    /// displayed form as technical details.
    pub fn simple(error: &AppError, component: &str, operation: &str) -> (r: Self)
        ensures
            r.component@ == component@,
            r.operation@ == operation@,
            r.user_message@ == fallback_message(component@),
            opt_text(r.technical_details) == Some(app_error_prefix(*error) + app_error_text(*error)),
            r.suggestion is None,
            r.severity == ErrorSeverity::Error,
    {
        let shown = error.to_string();
        ErrorContext::new(component, operation).with_technical_details(shown.as_str())
    }

    /// The context of a warning: the generic message and nothing more.
    pub fn warning(component: &str, operation: &str) -> (r: Self)
        ensures
            r.component@ == component@,
            r.operation@ == operation@,
            r.user_message@ == fallback_message(component@),
            r.technical_details is None,
            r.suggestion is None,
            r.severity == ErrorSeverity::Warning,
    {
        ErrorContext::new(component, operation).with_severity(ErrorSeverity::Warning)
    }

    /// The context of an error after which the application terminates.
    pub fn critical(component: &str, operation: &str, user_message: &str) -> (r: Self)
        ensures
            r.component@ == component@,
            r.operation@ == operation@,
            r.user_message@ == user_message@,
            r.technical_details is None,
            opt_text(r.suggestion) == Some(
                "The application will terminate. Please fix the issue and restart."@,
            ),
            r.severity == ErrorSeverity::Critical,
    {
        ErrorContext::new(component, operation).with_message(user_message).with_severity(
            ErrorSeverity::Critical,
        ).with_suggestion("The application will terminate. Please fix the issue and restart.")
    }

    /// The context of a failure to load data.
    pub fn loading(component: &str, operation: &str, error: &str) -> (r: Self)
        ensures
            r.component@ == component@,
            r.operation@ == operation@,
            r.user_message@ == "Failed to "@ + operation@ + " data"@,
            opt_text(r.technical_details) == Some(error@),
            opt_text(r.suggestion) == Some("Check your connection and try again"@),
            r.severity == ErrorSeverity::Error,
    {
        let message = concat3("Failed to ", operation, " data");
        ErrorContext::new(component, operation).with_message(message.as_str()).with_technical_details(
            error,
        ).with_suggestion("Check your connection and try again")
    }

    /// The context of a Service Bus failure, with the given suggestion or a
    /// default one.
    pub fn service_bus(operation: &str, error: &str, suggestion: Option<&str>) -> (r: Self)
        ensures
            r.component@ == "ServiceBus"@,
            r.operation@ == operation@,
            r.user_message@ == "Service bus "@ + operation@ + " failed"@,
            opt_text(r.technical_details) == Some(error@),
            opt_text(r.suggestion) == Some(
                match suggestion {
                    Some(s) => s@,
                    None => "Check your Azure connection and credentials"@,
                },
            ),
            r.severity == ErrorSeverity::Error,
    {
        let message = concat3("Service bus ", operation, " failed");
        let hint = match suggestion {
            Some(s) => s,
            None => "Check your Azure connection and credentials",
        };
        ErrorContext::new("ServiceBus", operation).with_message(message.as_str()).with_technical_details(
            error,
        ).with_suggestion(hint)
    }

    /// The context of a failed bulk operation on `count` messages.
    pub fn bulk_operation(operation: &str, count: usize, error: &str) -> (r: Self)
        ensures
            r.component@ == "BulkOperationHandler"@,
            r.operation@ == operation@,
            r.user_message@ == "Failed to "@ + operation@ + " "@ + crate::text::decimal(count as nat)
                + " messages"@,
            opt_text(r.technical_details) == Some(error@),
            opt_text(r.suggestion) == Some(
                "Some messages may have been processed. Check the queue and try again if needed"@,
            ),
            r.severity == ErrorSeverity::Error,
    {
        let mut message = concat3("Failed to ", operation, " ");
        let n = crate::text::unsigned_to_string(count as u128);
        message.append(n.as_str());
        message.append(" messages");
        ErrorContext::new("BulkOperationHandler", operation).with_message(
            message.as_str(),
        ).with_technical_details(error).with_suggestion(
            "Some messages may have been processed. Check the queue and try again if needed",
        )
    }

    /// The context of a configuration that could not be loaded.
    pub fn config_load(config_type: &str, error: &str) -> (r: Self)
        ensures
            r.component@ == "Configuration"@,
            r.operation@ == "load_config"@,
            r.user_message@ == "Failed to load "@ + config_type@ + " configuration"@,
            opt_text(r.technical_details) == Some(error@),
            opt_text(r.suggestion) == Some(
                "Check your configuration file and restart the application"@,
            ),
            r.severity == ErrorSeverity::Error,
    {
        let message = concat3("Failed to load ", config_type, " configuration");
        ErrorContext::new("Configuration", "load_config").with_message(message.as_str()).with_technical_details(
            error,
        ).with_suggestion("Check your configuration file and restart the application")
    }
}

/// A warning is shown as a warning popup with its message and suggestion; an
/// error or a critical error as an error popup of the error's own kind, whose
/// text starts with the kind's emoji and title and the user message, and goes
/// on with the details and the suggestion where there are any.
pub proof fn lemma_popup_by_severity(error: AppError, context: ErrorContext, shown: Msg)
    requires
        popup_for(error, context, shown),
    ensures
        context.severity == ErrorSeverity::Warning ==> (shown matches Msg::PopupActivity(
            PopupActivityMsg::ShowWarning(w),
        ) && w@ == match context.suggestion {
            Some(s) => context.user_message@ + "\n\n💡 Suggestion: "@ + s@,
            None => context.user_message@,
        }),
        context.severity != ErrorSeverity::Warning ==> (shown matches Msg::PopupActivity(
            PopupActivityMsg::ShowError(e),
        ) && same_kind(e, error) && app_error_text(e) == app_error_emoji(error) + " "@
            + app_error_title(error) + "\n\n"@ + context.user_message@ + (match context.technical_details {
            Some(d) => "\n\n🔍 Details: "@ + d@,
            None => Seq::<char>::empty(),
        }) + (match context.suggestion {
            Some(s) => "\n\n💡 Suggestion: "@ + s@,
            None => Seq::<char>::empty(),
        })),
{
    if context.severity != ErrorSeverity::Warning {
        let head = app_error_emoji(error) + " "@ + app_error_title(error) + "\n\n"@
            + context.user_message@;
        let d = match context.technical_details {
            Some(d) => "\n\n🔍 Details: "@ + d@,
            None => Seq::<char>::empty(),
        };
        let g = match context.suggestion {
            Some(s) => "\n\n💡 Suggestion: "@ + s@,
            None => Seq::<char>::empty(),
        };
        assert(formatted_error_text(
            error,
            context.user_message@,
            opt_text(context.technical_details),
            opt_text(context.suggestion),
        ) =~= head + d + g);
    }
}

} // verus!
