//! Names of the environment variables the application reads.
use vstd::prelude::*;

verus! {

/// Azure AD tenant.
pub const AZURE_AD_TENANT_ID: &'static str = "AZURE_AD__TENANT_ID";

/// Azure AD client (application) id.
pub const AZURE_AD_CLIENT_ID: &'static str = "AZURE_AD__CLIENT_ID";

/// Azure AD client secret, in clear.
pub const AZURE_AD_CLIENT_SECRET: &'static str = "AZURE_AD__CLIENT_SECRET";

/// Azure AD client secret, encrypted with the master password.
pub const AZURE_AD_ENCRYPTED_CLIENT_SECRET: &'static str = "AZURE_AD__ENCRYPTED_CLIENT_SECRET";

/// Salt of the encrypted client secret.
pub const AZURE_AD_CLIENT_SECRET_ENCRYPTION_SALT: &'static str =
    "AZURE_AD__CLIENT_SECRET_ENCRYPTION_SALT";

/// Azure subscription.
pub const AZURE_AD_SUBSCRIPTION_ID: &'static str = "AZURE_AD__SUBSCRIPTION_ID";

/// Azure resource group.
pub const AZURE_AD_RESOURCE_GROUP: &'static str = "AZURE_AD__RESOURCE_GROUP";

/// Service Bus namespace.
pub const AZURE_AD_NAMESPACE: &'static str = "AZURE_AD__NAMESPACE";

/// Service Bus connection string, encrypted with the master password.
pub const SERVICEBUS_ENCRYPTED_CONNECTION_STRING: &'static str =
    "SERVICEBUS__ENCRYPTED_CONNECTION_STRING";

/// Salt of the encrypted connection string.
pub const SERVICEBUS_ENCRYPTION_SALT: &'static str = "SERVICEBUS__ENCRYPTION_SALT";

/// Queue to open at start.
pub const SERVICEBUS_QUEUE_NAME: &'static str = "SERVICEBUS__QUEUE_NAME";

} // verus!
