use quetty::common::{AzureDiscoveryMsg, ComponentId, Msg};
use quetty::pickers::Subscription;

#[test]
fn discovery_events_in_logs() {
    let subs = vec![
        Subscription { subscription_id: "1".to_string(), display_name: "a".to_string() },
        Subscription { subscription_id: "2".to_string(), display_name: "b".to_string() },
    ];
    assert_eq!(
        AzureDiscoveryMsg::SubscriptionsDiscovered(subs).describe(),
        "SubscriptionsDiscovered(2 items)"
    );
    assert_eq!(
        AzureDiscoveryMsg::ConnectionStringFetched("Endpoint=sb://secret".to_string()).describe(),
        "ConnectionStringFetched(...)"
    );
    assert_eq!(
        AzureDiscoveryMsg::FetchingConnectionString {
            subscription_id: "s".to_string(),
            resource_group: "g".to_string(),
            namespace: "n".to_string()
        }
        .describe(),
        "FetchingConnectionString { subscription_id: s, resource_group: g, namespace: n }"
    );
    assert_eq!(AzureDiscoveryMsg::DiscoveryError("x".to_string()).describe(), "DiscoveryError(x)");
}

#[test]
fn component_names_and_default_message() {
    assert_eq!(ComponentId::ResourceGroupPicker.name(), "ResourceGroupPicker");
    assert_eq!(ComponentId::Messages.name(), "Messages");
    assert_eq!(Msg::default(), Msg::AppClose);
}
