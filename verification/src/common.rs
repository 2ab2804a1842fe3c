//! Identifiers of the interface components and the messages they emit.
use vstd::prelude::*;
use crate::error::AppError;
use crate::messages::{MessageIdentifier, MessageModel};
use crate::pickers::{ResourceGroup, Subscription};
use crate::text::{concat2, decimal, owned, unsigned_to_string};

verus! {

/// Every component the interface can mount.
#[derive(Debug, Clone, Copy, PartialEq, Eq, Hash, Structural)]
pub enum ComponentId {
    GlobalKeyWatcher,
    NamespacePicker,
    QueuePicker,
    Messages,
    MessageDetails,
    LoadingIndicator,
    ErrorPopup,
    SuccessPopup,
    ConfirmationPopup,
    NumberInputPopup,
    PageSizePopup,
    HelpScreen,
    ThemePicker,
    ConfigScreen,
    PasswordPopup,
    TextLabel,
    AuthPopup,
    SubscriptionPicker,
    ResourceGroupPicker,
}

/// The name of a component, as shown in logs and messages.
pub open spec fn component_name(id: ComponentId) -> Seq<char> {
    match id {
        ComponentId::GlobalKeyWatcher => "GlobalKeyWatcher"@,
        ComponentId::NamespacePicker => "NamespacePicker"@,
        ComponentId::QueuePicker => "QueuePicker"@,
        ComponentId::Messages => "Messages"@,
        ComponentId::MessageDetails => "MessageDetails"@,
        ComponentId::LoadingIndicator => "LoadingIndicator"@,
        ComponentId::ErrorPopup => "ErrorPopup"@,
        ComponentId::SuccessPopup => "SuccessPopup"@,
        ComponentId::ConfirmationPopup => "ConfirmationPopup"@,
        ComponentId::NumberInputPopup => "NumberInputPopup"@,
        ComponentId::PageSizePopup => "PageSizePopup"@,
        ComponentId::HelpScreen => "HelpScreen"@,
        ComponentId::ThemePicker => "ThemePicker"@,
        ComponentId::ConfigScreen => "ConfigScreen"@,
        ComponentId::PasswordPopup => "PasswordPopup"@,
        ComponentId::TextLabel => "TextLabel"@,
        ComponentId::AuthPopup => "AuthPopup"@,
        ComponentId::SubscriptionPicker => "SubscriptionPicker"@,
        ComponentId::ResourceGroupPicker => "ResourceGroupPicker"@,
    }
}

impl ComponentId {
    /// The component's name.
    pub fn name(&self) -> (r: &'static str)
        ensures
            r@ == component_name(*self),
    {
        match self {
            ComponentId::GlobalKeyWatcher => "GlobalKeyWatcher",
            ComponentId::NamespacePicker => "NamespacePicker",
            ComponentId::QueuePicker => "QueuePicker",
            ComponentId::Messages => "Messages",
            ComponentId::MessageDetails => "MessageDetails",
            ComponentId::LoadingIndicator => "LoadingIndicator",
            ComponentId::ErrorPopup => "ErrorPopup",
            ComponentId::SuccessPopup => "SuccessPopup",
            ComponentId::ConfirmationPopup => "ConfirmationPopup",
            ComponentId::NumberInputPopup => "NumberInputPopup",
            ComponentId::PageSizePopup => "PageSizePopup",
            ComponentId::HelpScreen => "HelpScreen",
            ComponentId::ThemePicker => "ThemePicker",
            ComponentId::ConfigScreen => "ConfigScreen",
            ComponentId::PasswordPopup => "PasswordPopup",
            ComponentId::TextLabel => "TextLabel",
            ComponentId::AuthPopup => "AuthPopup",
            ComponentId::SubscriptionPicker => "SubscriptionPicker",
            ComponentId::ResourceGroupPicker => "ResourceGroupPicker",
        }
    }
}

/// Whether the main queue or its dead letter queue is shown.
#[derive(Debug, Clone, Copy, PartialEq, Eq, Structural)]
pub enum QueueType {
    Main,
    DeadLetter,
}

/// Authentication flow events.
#[derive(Debug, Clone, PartialEq)]
pub enum AuthActivityMsg {
    Login,
    ShowDeviceCode { user_code: String, verification_url: String, message: String, expires_in: u64 },
    AuthenticationSuccess,
    AuthenticationFailed(String),
    CancelAuthentication,
    CopyDeviceCode,
    OpenVerificationUrl,
    TokenRefreshFailed(String),
    CreateServiceBusManager,
}

/// Namespace selection events.
#[derive(Debug, Clone, PartialEq)]
pub enum NamespaceActivityMsg {
    NamespaceSelected,
    NamespaceUnselected,
    NamespacesLoaded(Vec<String>),
    NamespaceCancelled,
}

/// Theme selection events.
#[derive(Debug, Clone, PartialEq)]
pub enum ThemeActivityMsg {
    /// Theme name and flavor name.
    ThemeSelected(String, String),
    ThemePickerClosed,
}

/// The settings the configuration screen hands over for saving.
#[derive(Debug, Clone, PartialEq)]
pub struct ConfigUpdateData {
    pub auth_method: String,
    pub tenant_id: Option<String>,
    pub client_id: Option<String>,
    pub client_secret: Option<String>,
    pub subscription_id: Option<String>,
    pub resource_group: Option<String>,
    pub namespace: Option<String>,
    pub connection_string: Option<String>,
    pub master_password: Option<String>,
    pub queue_name: Option<String>,
}

/// Configuration screen events.
#[derive(Debug, Clone, PartialEq)]
pub enum ConfigActivityMsg {
    Save(ConfigUpdateData),
    ConfirmAndProceed(ConfigUpdateData),
    Cancel,
}

/// Queue selection events.
#[derive(Debug, Clone, PartialEq)]
pub enum QueueActivityMsg {
    QueueSelected(String),
    QueueUnselected,
    QueuesLoaded(Vec<String>),
    ToggleDeadLetterQueue,
    QueueSwitchCancelled,
    ExitQueueConfirmation,
    ExitQueueConfirmed,
    ExitQueueFinalized,
    QueueSelectedFromManualEntry(String),
}

/// Subscription selection events.
#[derive(Debug, Clone, PartialEq)]
pub enum SubscriptionSelectionMsg {
    SubscriptionSelected(String),
    SelectionChanged,
    CancelSelection,
}

/// Resource group selection events.
#[derive(Debug, Clone, PartialEq)]
pub enum ResourceGroupSelectionMsg {
    ResourceGroupSelected(String),
    SelectionChanged,
    CancelSelection,
}

/// Message list and message detail events.
#[derive(Debug, Clone, PartialEq)]
pub enum MessageActivityMsg {
    EditMessage(usize),
    PreviewMessageDetails(usize),
    CancelEditMessage,
    MessagesLoaded(Vec<MessageModel>),
    QueueNameUpdated(String),
    NextPage,
    PreviousPage,
    NewMessagesLoaded(Vec<MessageModel>),
    ToggleMessageSelectionByIndex(usize),
    SelectAllCurrentPage,
    SelectAllLoadedMessages,
    ClearAllSelections,
    BulkDeleteSelected,
    BulkSendSelectedToDLQWithDelete,
    /// Resend from the dead letter queue; `true` also deletes the originals.
    BulkResendSelectedFromDLQ(bool),
    BulkDeleteMessages(Vec<MessageIdentifier>),
    BulkSendToDLQWithDelete(Vec<MessageIdentifier>),
    /// Resend from the dead letter queue; `true` also deletes the originals.
    BulkResendFromDLQ(Vec<MessageIdentifier>, bool),
    BulkRemoveMessagesFromState(Vec<String>),
    SendEditedMessage(String),
    /// Replace a message with the edited body.
    ReplaceEditedMessage(String, MessageIdentifier),
    /// Replacement confirmed, with the number of copies to send.
    ReplaceEditedMessageConfirmed(String, MessageIdentifier, usize),
    ComposeNewMessage,
    SetMessageRepeatCount,
    UpdateRepeatCount(usize),
    MessagesSentSuccessfully,
    EditingModeStarted,
    EditingModeStopped,
    BulkDeleteCompleted { successful_count: usize, failed_count: usize, total_count: usize },
    ForceReloadMessages,
    RefreshQueueStatistics,
}

/// Loading indicator events.
#[derive(Debug, Clone, PartialEq)]
pub enum LoadingActivityMsg {
    Start(String),
    Stop,
    Update(String),
    Cancel,
    /// Show the cancel button for the given operation.
    ShowCancelButton(String),
    HideCancelButton,
}

/// Popup events.
#[derive(Debug, PartialEq)]
pub enum PopupActivityMsg {
    ShowError(AppError),
    CloseError,
    ShowWarning(String),
    ShowSuccess(String),
    CloseSuccess,
    ShowConfirmation { title: String, message: String, on_confirm: Box<Msg> },
    ShowNumberInput { title: String, message: String, min_value: usize, max_value: usize },
    ShowPageSizePopup,
    /// The number entered; `0` when the input was cancelled.
    NumberInputResult(usize),
    PageSizeResult(usize),
    ConfirmationResult(bool),
    ClosePageSize,
}

/// Discovery of the Azure resources to connect to.
#[derive(Debug, Clone, PartialEq)]
pub enum AzureDiscoveryMsg {
    StartDiscovery,
    StartInteractiveDiscovery,
    DiscoveringSubscriptions,
    SubscriptionsDiscovered(Vec<Subscription>),
    /// Listing the resource groups of a subscription.
    DiscoveringResourceGroups(String),
    ResourceGroupsDiscovered(Vec<ResourceGroup>),
    /// Listing the namespaces of a subscription.
    DiscoveringNamespaces(String),
    /// The names of the namespaces found.
    NamespacesDiscovered(Vec<String>),
    FetchingConnectionString { subscription_id: String, resource_group: String, namespace: String },
    ConnectionStringFetched(String),
    ServiceBusManagerCreated,
    /// The Service Bus manager is ready; the application holds it.
    ServiceBusManagerReady,
    DiscoveryError(String),
    DiscoveryComplete,
}

/// How a discovery event is written in logs: lists by their length, and
/// never the connection string.
pub open spec fn discovery_text(m: AzureDiscoveryMsg) -> Seq<char> {
    match m {
        AzureDiscoveryMsg::StartDiscovery => "StartDiscovery"@,
        AzureDiscoveryMsg::StartInteractiveDiscovery => "StartInteractiveDiscovery"@,
        AzureDiscoveryMsg::DiscoveringSubscriptions => "DiscoveringSubscriptions"@,
        AzureDiscoveryMsg::SubscriptionsDiscovered(v) => "SubscriptionsDiscovered("@ + decimal(
            v@.len(),
        ) + " items)"@,
        AzureDiscoveryMsg::DiscoveringResourceGroups(id) => "DiscoveringResourceGroups("@ + id@
            + ")"@,
        AzureDiscoveryMsg::ResourceGroupsDiscovered(v) => "ResourceGroupsDiscovered("@ + decimal(
            v@.len(),
        ) + " items)"@,
        AzureDiscoveryMsg::DiscoveringNamespaces(id) => "DiscoveringNamespaces("@ + id@ + ")"@,
        AzureDiscoveryMsg::NamespacesDiscovered(v) => "NamespacesDiscovered("@ + decimal(v@.len())
            + " items)"@,
        AzureDiscoveryMsg::FetchingConnectionString { subscription_id, resource_group, namespace } =>
            "FetchingConnectionString { subscription_id: "@ + subscription_id@
            + ", resource_group: "@ + resource_group@ + ", namespace: "@ + namespace@ + " }"@,
        AzureDiscoveryMsg::ConnectionStringFetched(_) => "ConnectionStringFetched(...)"@,
        AzureDiscoveryMsg::ServiceBusManagerCreated => "ServiceBusManagerCreated"@,
        AzureDiscoveryMsg::ServiceBusManagerReady => "ServiceBusManagerReady(Arc<Mutex<ServiceBusManager>>)"@,
        AzureDiscoveryMsg::DiscoveryError(e) => "DiscoveryError("@ + e@ + ")"@,
        AzureDiscoveryMsg::DiscoveryComplete => "DiscoveryComplete"@,
    }
}

impl AzureDiscoveryMsg {
    /// The event as written in logs (see [`discovery_text`]).
    pub fn describe(&self) -> (r: String)
        ensures
            r@ == discovery_text(*self),
    {
        match self {
            AzureDiscoveryMsg::StartDiscovery => owned("StartDiscovery"),
            AzureDiscoveryMsg::StartInteractiveDiscovery => owned("StartInteractiveDiscovery"),
            AzureDiscoveryMsg::DiscoveringSubscriptions => owned("DiscoveringSubscriptions"),
            AzureDiscoveryMsg::SubscriptionsDiscovered(v) => counted("SubscriptionsDiscovered(", v.len()),
            AzureDiscoveryMsg::DiscoveringResourceGroups(id) => {
                let mut r = concat2("DiscoveringResourceGroups(", id.as_str());
                r.append(")");
                r
            },
            AzureDiscoveryMsg::ResourceGroupsDiscovered(v) => counted("ResourceGroupsDiscovered(", v.len()),
            AzureDiscoveryMsg::DiscoveringNamespaces(id) => {
                let mut r = concat2("DiscoveringNamespaces(", id.as_str());
                r.append(")");
                r
            },
            AzureDiscoveryMsg::NamespacesDiscovered(v) => counted("NamespacesDiscovered(", v.len()),
            AzureDiscoveryMsg::FetchingConnectionString { subscription_id, resource_group, namespace } => {
                let mut r = concat2("FetchingConnectionString { subscription_id: ", subscription_id.as_str());
                r.append(", resource_group: ");
                r.append(resource_group.as_str());
                r.append(", namespace: ");
                r.append(namespace.as_str());
                r.append(" }");
                r
            },
            AzureDiscoveryMsg::ConnectionStringFetched(_) => owned("ConnectionStringFetched(...)"),
            AzureDiscoveryMsg::ServiceBusManagerCreated => owned("ServiceBusManagerCreated"),
            AzureDiscoveryMsg::ServiceBusManagerReady => owned(
                "ServiceBusManagerReady(Arc<Mutex<ServiceBusManager>>)",
            ),
            AzureDiscoveryMsg::DiscoveryError(e) => {
                let mut r = concat2("DiscoveryError(", e.as_str());
                r.append(")");
                r
            },
            AzureDiscoveryMsg::DiscoveryComplete => owned("DiscoveryComplete"),
        }
    }
}

/// `label`, the count, and ` items)`.
fn counted(label: &str, n: usize) -> (r: String)
    ensures
        r@ == label@ + decimal(n as nat) + " items)"@,
{
    let mut r = owned(label);
    let count = unsigned_to_string(n as u128);
    r.append(count.as_str());
    r.append(" items)");
    r
}

/// A fetched connection string never shows in the log text: two fetched
/// connection strings are written alike.
pub proof fn lemma_connection_string_not_logged(a: String, b: String)
    ensures
        discovery_text(AzureDiscoveryMsg::ConnectionStringFetched(a)) == discovery_text(
            AzureDiscoveryMsg::ConnectionStringFetched(b),
        ),
{
}

/// A message from a component to the application.
#[derive(Debug, PartialEq)]
pub enum Msg {
    AppClose,
    ForceRedraw,
    Tick,
    MessageActivity(MessageActivityMsg),
    QueueActivity(QueueActivityMsg),
    NamespaceActivity(NamespaceActivityMsg),
    ThemeActivity(ThemeActivityMsg),
    LoadingActivity(LoadingActivityMsg),
    PopupActivity(PopupActivityMsg),
    Error(AppError),
    ShowError(String),
    ShowSuccess(String),
    ClipboardError(String),
    ToggleHelpScreen,
    ToggleThemePicker,
    ToggleConfigScreen,
    TogglePasswordPopup,
    AuthActivity(AuthActivityMsg),
    ConfigActivity(ConfigActivityMsg),
    SetEditingMode(bool),
    SubscriptionSelection(SubscriptionSelectionMsg),
    ResourceGroupSelection(ResourceGroupSelectionMsg),
    AzureDiscovery(AzureDiscoveryMsg),
    /// A Service Bus manager was created; the application holds it.
    SetServiceBusManager,
}

impl Default for Msg {
    /// Closing the application.
    fn default() -> (r: Self)
        ensures
            r == Msg::AppClose,
    {
        Msg::AppClose
    }
}

} // verus!
