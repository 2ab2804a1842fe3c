//! Application configuration: the settings with their defaults, the limits
//! they must respect, and the validation of a loaded configuration.
use vstd::prelude::*;
use crate::keys::KeyBindingsConfig;
use crate::text::{decimal, is_blank, is_blank_str, owned, str_eq, unsigned_to_string};

verus! {

// ---------------------------------------------------------------------------
// Limits
// ---------------------------------------------------------------------------

/// Azure Service Bus hard limit for batch operations.
pub const AZURE_SERVICE_BUS_MAX_BATCH_SIZE: u32 = 2048;

/// Maximum reasonable timeout for operations (seconds).
pub const MAX_OPERATION_TIMEOUT_SECS: u64 = 1200;

/// Maximum chunk size for bulk processing.
pub const MAX_BULK_CHUNK_SIZE: usize = 500;

/// Maximum processing time for bulk operations (seconds).
pub const MAX_BULK_PROCESSING_TIME_SECS: u64 = 300;

/// Maximum lock timeout (seconds).
pub const MAX_LOCK_TIMEOUT_SECS: u64 = 30;

/// Maximum messages to process in bulk operations.
pub const MAX_MESSAGES_TO_PROCESS_LIMIT: usize = 10000;

/// Minimum page size for message display.
pub const MIN_PAGE_SIZE: u32 = 100;

/// Maximum page size for message display.
pub const MAX_PAGE_SIZE: u32 = 1000;

/// Minimum time to live of the queue statistics cache (seconds).
pub const MIN_QUEUE_STATS_CACHE_TTL_SECONDS: u64 = 30;

/// Maximum time to live of the queue statistics cache (seconds).
pub const MAX_QUEUE_STATS_CACHE_TTL_SECONDS: u64 = 3600;

/// Authentication with a Service Bus connection string.
pub const AUTH_METHOD_CONNECTION_STRING: &'static str = "connection_string";

/// Azure AD device code flow.
pub const AUTH_METHOD_DEVICE_CODE: &'static str = "device_code";

/// Azure AD client secret flow.
pub const AUTH_METHOD_CLIENT_SECRET: &'static str = "client_secret";

// ---------------------------------------------------------------------------
// Optional text settings
// ---------------------------------------------------------------------------

/// The text of an optional string setting.
pub open spec fn opt_text(o: Option<String>) -> Option<Seq<char>> {
    match o {
        Some(s) => Some(s@),
        None => None,
    }
}

/// The text of an optional borrowed string.
pub open spec fn opt_str_text(o: Option<&str>) -> Option<Seq<char>> {
    match o {
        Some(s) => Some(s@),
        None => None,
    }
}

/// An optional text, with a blank text counting as absent.
pub open spec fn non_blank(o: Option<Seq<char>>) -> Option<Seq<char>> {
    match o {
        Some(s) => if is_blank(s) {
            None
        } else {
            Some(s)
        },
        None => None,
    }
}

fn non_blank_str(o: &Option<String>) -> (r: Option<&str>)
    ensures
        opt_str_text(r) == non_blank(opt_text(*o)),
{
    match o {
        Some(s) => if is_blank_str(s.as_str()) {
            None
        } else {
            Some(s.as_str())
        },
        None => None,
    }
}

// ---------------------------------------------------------------------------
// Authentication preferences
// ---------------------------------------------------------------------------

/// Authentication preferences: the method tried first, and whether others
/// may be tried after it.
#[derive(Debug, Clone)]
pub struct AuthConfig {
    pub primary_method: String,
    pub fallback_enabled: bool,
}

impl Default for AuthConfig {
    /// Connection string first, with fallback enabled.
    fn default() -> (r: Self)
        ensures
            r.primary_method@ == "connection_string"@,
            r.fallback_enabled,
    {
        AuthConfig { primary_method: owned("connection_string"), fallback_enabled: true }
    }
}

impl AuthConfig {
    /// The method tried first.
    pub fn primary_method(&self) -> (r: &str)
        ensures
            r@ == self.primary_method@,
    {
        self.primary_method.as_str()
    }

    /// Whether other methods may be tried after the primary one.
    pub fn fallback_enabled(&self) -> (r: bool)
        ensures
            r == self.fallback_enabled,
    {
        self.fallback_enabled
    }
}

// ---------------------------------------------------------------------------
// Service Bus connection settings
// ---------------------------------------------------------------------------

/// Why the stored connection string cannot be decrypted.
#[derive(Debug, Clone, PartialEq)]
pub enum EncryptionError {
    InvalidData(String),
    DecryptionFailed(String),
}

/// What decrypting the stored connection string takes.
#[derive(Debug, Clone)]
pub struct ConnectionStringSecret {
    pub encrypted: String,
    pub salt: String,
    pub password: String,
}

/// The stored (encrypted) Service Bus connection string and its salt.
#[derive(Debug, Clone, Default)]
pub struct ServicebusConfig {
    pub encrypted_connection_string: Option<String>,
    pub encryption_salt: Option<String>,
}

impl ServicebusConfig {
    /// The stored connection string is present and not blank.
    pub open spec fn has_connection_string_spec(&self) -> bool {
        non_blank(opt_text(self.encrypted_connection_string)) is Some && non_blank(
            opt_text(self.encryption_salt),
        ) is Some
    }

    /// The encrypted connection string, unless absent or blank.
    pub fn encrypted_connection_string(&self) -> (r: Option<&str>)
        ensures
            opt_str_text(r) == non_blank(opt_text(self.encrypted_connection_string)),
    {
        non_blank_str(&self.encrypted_connection_string)
    }

    /// The encryption salt, unless absent or blank.
    pub fn encryption_salt(&self) -> (r: Option<&str>)
        ensures
            opt_str_text(r) == non_blank(opt_text(self.encryption_salt)),
    {
        non_blank_str(&self.encryption_salt)
    }

    /// Whether an encrypted connection string and its salt are configured.
    pub fn has_connection_string(&self) -> (r: bool)
        ensures
            r == self.has_connection_string_spec(),
    {
        self.encrypted_connection_string().is_some() && self.encryption_salt().is_some()
    }

    /// What decrypting the connection string takes, given the master password
    /// currently set: `Ok(None)` without a stored connection string, an error
    /// without a salt or without a password.
    pub fn connection_string_secret(&self, master_password: Option<String>) -> (r: Result<
        Option<ConnectionStringSecret>,
        EncryptionError,
    >)
        ensures
            non_blank(opt_text(self.encrypted_connection_string)) is None ==> r matches Ok(None),
            non_blank(opt_text(self.encrypted_connection_string)) is Some && non_blank(
                opt_text(self.encryption_salt),
            ) is None ==> (r matches Err(EncryptionError::InvalidData(m)) && m@
                == "Encryption salt not found in configuration"@),
            self.has_connection_string_spec() && master_password is None ==> (r matches Err(
                EncryptionError::DecryptionFailed(m),
            ) && m@ == "Master password not set. Please set password first."@),
            self.has_connection_string_spec() && master_password is Some ==> (r matches Ok(Some(s))
                && Some(s.encrypted@) == non_blank(opt_text(self.encrypted_connection_string))
                && Some(s.salt@) == non_blank(opt_text(self.encryption_salt)) && s.password@
                == master_password->0@),
    {
        let encrypted = match self.encrypted_connection_string() {
            Some(e) => e,
            None => {
                return Ok(None);
            },
        };
        let salt = match self.encryption_salt() {
            Some(s) => s,
            None => {
                return Err(
                    EncryptionError::InvalidData(owned("Encryption salt not found in configuration")),
                );
            },
        };
        match master_password {
            Some(password) => Ok(
                Some(
                    ConnectionStringSecret {
                        encrypted: owned(encrypted),
                        salt: owned(salt),
                        password,
                    },
                ),
            ),
            None => Err(
                EncryptionError::DecryptionFailed(
                    owned("Master password not set. Please set password first."),
                ),
            ),
        }
    }
}

// ---------------------------------------------------------------------------
// Smaller sections
// ---------------------------------------------------------------------------

/// Dead letter queue settings.
#[derive(Debug, Clone, Default)]
pub struct DLQConfig {
    pub dlq_batch_size: Option<u32>,
}

impl DLQConfig {
    /// Batch size for receiving messages in dead letter operations (default 10).
    #[verifier::allow_in_spec]
    pub fn batch_size(&self) -> u32
        returns
            match self.dlq_batch_size {
                Some(n) => n,
                None => 10u32,
            },
    {
        match self.dlq_batch_size {
            Some(n) => n,
            None => 10,
        }
    }
}

/// User interface settings.
#[derive(Debug, Clone, Default)]
pub struct UIConfig {
    pub ui_loading_frame_duration_ms: Option<u64>,
    pub queue_stats_age_threshold_seconds: Option<u64>,
}

impl UIConfig {
    /// Time between frames of the loading animation (default 100 ms).
    #[verifier::allow_in_spec]
    pub fn loading_frame_duration_ms(&self) -> u64
        returns
            match self.ui_loading_frame_duration_ms {
                Some(n) => n,
                None => 100u64,
            },
    {
        match self.ui_loading_frame_duration_ms {
            Some(n) => n,
            None => 100,
        }
    }

    /// Age from which queue statistics are shown as stale (default 60 s).
    #[verifier::allow_in_spec]
    pub fn queue_stats_age_threshold_seconds(&self) -> u64
        returns
            match self.queue_stats_age_threshold_seconds {
                Some(n) => n,
                None => 60u64,
            },
    {
        match self.queue_stats_age_threshold_seconds {
            Some(n) => n,
            None => 60,
        }
    }
}

/// Logging settings.
#[derive(Debug, Clone, Default)]
pub struct LoggingConfig {
    pub level: Option<String>,
    pub file: Option<String>,
    pub max_file_size_mb: Option<u64>,
    pub max_backup_files: Option<u32>,
    pub cleanup_on_startup: Option<bool>,
}

impl LoggingConfig {
    /// The log level (default `info`).
    pub fn level(&self) -> (r: &str)
        ensures
            r@ == (match self.level {
                Some(l) => l@,
                None => "info"@,
            }),
    {
        match &self.level {
            Some(l) => l.as_str(),
            None => "info",
        }
    }

    /// The log file, if one is configured.
    pub fn file(&self) -> (r: Option<&str>)
        ensures
            opt_str_text(r) == opt_text(self.file),
    {
        match &self.file {
            Some(f) => Some(f.as_str()),
            None => None,
        }
    }

    /// Size in megabytes at which the log file is rotated (default 10).
    #[verifier::allow_in_spec]
    pub fn max_file_size_mb(&self) -> u64
        returns
            match self.max_file_size_mb {
                Some(n) => n,
                None => 10u64,
            },
    {
        match self.max_file_size_mb {
            Some(n) => n,
            None => 10,
        }
    }

    /// Number of rotated log files kept (default 5).
    #[verifier::allow_in_spec]
    pub fn max_backup_files(&self) -> u32
        returns
            match self.max_backup_files {
                Some(n) => n,
                None => 5u32,
            },
    {
        match self.max_backup_files {
            Some(n) => n,
            None => 5,
        }
    }

    /// Whether old log files are removed at startup (default true).
    #[verifier::allow_in_spec]
    pub fn cleanup_on_startup(&self) -> bool
        returns
            match self.cleanup_on_startup {
                Some(b) => b,
                None => true,
            },
    {
        match self.cleanup_on_startup {
            Some(b) => b,
            None => true,
        }
    }
}

/// The batch settings the validation reads, as the batch configuration
/// reports them.
#[derive(Debug, Clone)]
pub struct BatchLimits {
    pub max_batch_size: u32,
    pub operation_timeout_secs: u64,
    pub bulk_chunk_size: usize,
    pub bulk_processing_time_secs: u64,
    pub lock_timeout_secs: u64,
    pub max_messages_to_process: usize,
}

/// The Azure AD settings the validation reads: the authentication method and
/// which credentials the configuration file provides.
#[derive(Debug, Clone)]
pub struct AzureAdSettings {
    pub auth_method: String,
    pub has_tenant_id: bool,
    pub has_client_id: bool,
    pub has_client_secret: bool,
}

/// Which credential environment variables are set.
#[derive(Debug, Clone, Copy)]
pub struct AuthEnvironment {
    pub tenant_id: bool,
    pub client_id: bool,
    pub client_secret: bool,
    pub encrypted_client_secret: bool,
    pub client_secret_encryption_salt: bool,
    pub encrypted_connection_string: bool,
    pub encryption_salt: bool,
}

/// Outcome of loading the configuration.
pub enum ConfigLoadResult {
    Success(Box<AppConfig>),
    LoadError(String),
    DeserializeError(String),
}

/// The whole application configuration.
#[derive(Debug, Clone)]
pub struct AppConfig {
    pub page_size: Option<u32>,
    /// Messages shown per page, as the `max_messages` setting gives it.
    pub max_messages: Option<u32>,
    pub crossterm_input_listener_interval_ms: Option<u64>,
    pub crossterm_input_listener_retries: Option<usize>,
    pub poll_timeout_ms: Option<u64>,
    pub tick_interval_millis: Option<u64>,
    pub queue_stats_display_enabled: Option<bool>,
    pub queue_stats_cache_ttl_seconds: Option<u64>,
    pub queue_stats_use_management_api: Option<bool>,
    pub azure_resource_cache_ttl_seconds: Option<u64>,
    pub azure_resource_cache_max_entries: Option<usize>,
    pub batch: BatchLimits,
    pub ui: UIConfig,
    pub keys: KeyBindingsConfig,
    pub servicebus: ServicebusConfig,
    pub azure_ad: AzureAdSettings,
    pub logging: LoggingConfig,
}

/// The error list `errs` when `cond` holds, nothing otherwise.
pub open spec fn when(cond: bool, e: ConfigValidationErrorView) -> Seq<ConfigValidationErrorView> {
    if cond {
        seq![e]
    } else {
        Seq::empty()
    }
}

/// The explanation given when connection string authentication is chosen
/// without a stored connection string.
pub open spec fn missing_connection_string_message() -> Seq<char> {
    "Authentication method is set to 'connection_string' but no encrypted Service Bus connection string is provided.\n\nPlease either:\n1. Add servicebus.encrypted_connection_string and servicebus.encryption_salt to your config.toml\n2. Set SERVICEBUS__ENCRYPTED_CONNECTION_STRING and SERVICEBUS__ENCRYPTION_SALT environment variables\n3. Change azure_ad.auth_method to 'device_code' for Azure AD authentication"@
}

/// A missing Azure AD credential.
pub open spec fn missing_field(name: Seq<char>) -> ConfigValidationErrorView {
    ConfigValidationErrorView::MissingAzureAdField { field: name }
}

/// Missing credentials of the device code flow.
pub open spec fn device_code_errors(ad: AzureAdSettings, env: AuthEnvironment) -> Seq<
    ConfigValidationErrorView,
> {
    when(!ad.has_tenant_id && !env.tenant_id, missing_field("tenant_id"@)) + when(
        !ad.has_client_id && !env.client_id,
        missing_field("client_id"@),
    )
}

/// Missing credentials of the client secret flow.
pub open spec fn client_secret_errors(ad: AzureAdSettings, env: AuthEnvironment) -> Seq<
    ConfigValidationErrorView,
> {
    device_code_errors(ad, env) + when(
        !ad.has_client_secret && !env.client_secret && !env.encrypted_client_secret,
        missing_field("client_secret"@),
    )
}

/// Problems of the authentication setup.
pub open spec fn auth_errors(c: AppConfig, env: AuthEnvironment) -> Seq<ConfigValidationErrorView> {
    let m = c.azure_ad.auth_method@;
    if m == "connection_string"@ {
        when(
            !c.servicebus.has_connection_string_spec(),
            ConfigValidationErrorView::ConflictingAuthConfig {
                message: missing_connection_string_message(),
            },
        )
    } else if m == "device_code"@ {
        device_code_errors(c.azure_ad, env)
    } else if m == "client_secret"@ {
        client_secret_errors(c.azure_ad, env)
    } else {
        seq![ConfigValidationErrorView::InvalidAuthMethod { method: m }]
    }
}

/// Every problem of a configuration, in the order they are reported.
pub open spec fn config_errors(c: AppConfig, env: AuthEnvironment) -> Seq<
    ConfigValidationErrorView,
> {
    let ps = c.page_size() as nat;
    let b = c.batch;
    let ttl = c.queue_stats_cache_ttl_seconds() as nat;
    let page = ConfigValidationErrorView::PageSize {
        configured: ps,
        min_limit: MIN_PAGE_SIZE as nat,
        max_limit: MAX_PAGE_SIZE as nat,
    };
    when(ps < MIN_PAGE_SIZE, page) + when(ps > MAX_PAGE_SIZE, page) + when(
        b.max_batch_size > AZURE_SERVICE_BUS_MAX_BATCH_SIZE,
        ConfigValidationErrorView::BatchSize {
            configured: b.max_batch_size as nat,
            limit: AZURE_SERVICE_BUS_MAX_BATCH_SIZE as nat,
        },
    ) + when(
        b.operation_timeout_secs > MAX_OPERATION_TIMEOUT_SECS,
        ConfigValidationErrorView::OperationTimeout {
            configured: b.operation_timeout_secs as nat,
            limit: MAX_OPERATION_TIMEOUT_SECS as nat,
        },
    ) + when(
        b.bulk_chunk_size > MAX_BULK_CHUNK_SIZE,
        ConfigValidationErrorView::BulkChunkSize {
            configured: b.bulk_chunk_size as nat,
            limit: MAX_BULK_CHUNK_SIZE as nat,
        },
    ) + when(
        b.bulk_processing_time_secs > MAX_BULK_PROCESSING_TIME_SECS,
        ConfigValidationErrorView::BulkProcessingTime {
            configured: b.bulk_processing_time_secs as nat,
            limit: MAX_BULK_PROCESSING_TIME_SECS as nat,
        },
    ) + when(
        b.lock_timeout_secs > MAX_LOCK_TIMEOUT_SECS,
        ConfigValidationErrorView::LockTimeout {
            configured: b.lock_timeout_secs as nat,
            limit: MAX_LOCK_TIMEOUT_SECS as nat,
        },
    ) + when(
        b.max_messages_to_process > MAX_MESSAGES_TO_PROCESS_LIMIT,
        ConfigValidationErrorView::MaxMessagesToProcess {
            configured: b.max_messages_to_process as nat,
            limit: MAX_MESSAGES_TO_PROCESS_LIMIT as nat,
        },
    ) + when(
        !(MIN_QUEUE_STATS_CACHE_TTL_SECONDS <= ttl <= MAX_QUEUE_STATS_CACHE_TTL_SECONDS),
        ConfigValidationErrorView::QueueStatsCacheTtl {
            configured: ttl,
            min_limit: MIN_QUEUE_STATS_CACHE_TTL_SECONDS as nat,
            max_limit: MAX_QUEUE_STATS_CACHE_TTL_SECONDS as nat,
        },
    ) + auth_errors(c, env)
}

/// The contents of a list of errors.
pub open spec fn error_views(v: Seq<ConfigValidationError>) -> Seq<ConfigValidationErrorView> {
    v.map_values(|e: ConfigValidationError| e@)
}

fn push_error(errors: &mut Vec<ConfigValidationError>, e: ConfigValidationError)
    ensures
        error_views(final(errors)@) == error_views(old(errors)@).push(e@),
{
    errors.push(e);
    assert(error_views(errors@) =~= error_views(old(errors)@).push(e@));
}

fn push_if(errors: &mut Vec<ConfigValidationError>, cond: bool, e: ConfigValidationError)
    ensures
        error_views(final(errors)@) == error_views(old(errors)@) + when(cond, e@),
{
    if cond {
        push_error(errors, e);
    }
    assert(error_views(errors@) =~= error_views(old(errors)@) + when(cond, e@));
}

impl AppConfig {
    /// Messages per page (default 100).
    #[verifier::allow_in_spec]
    pub fn page_size(&self) -> u32
        returns
            match self.page_size {
                Some(n) => n,
                None => 100u32,
            },
    {
        match self.page_size {
            Some(n) => n,
            None => 100,
        }
    }

    /// Messages shown per page: the `max_messages` setting, else the
    /// `page_size` setting, else 10.
    #[verifier::allow_in_spec]
    pub fn max_messages(&self) -> u32
        returns
            match self.max_messages {
                Some(n) => n,
                None => match self.page_size {
                    Some(n) => n,
                    None => 10u32,
                },
            },
    {
        match self.max_messages {
            Some(n) => n,
            None => match self.page_size {
                Some(n) => n,
                None => 10,
            },
        }
    }

    /// Interval of the input listener in milliseconds (default 10).
    pub fn crossterm_input_listener_interval_ms(&self) -> (r: u64)
        ensures
            r == (match self.crossterm_input_listener_interval_ms {
                Some(n) => n,
                None => 10u64,
            }),
    {
        match self.crossterm_input_listener_interval_ms {
            Some(n) => n,
            None => 10,
        }
    }

    /// Retries of the input listener (default 10).
    pub fn crossterm_input_listener_retries(&self) -> (r: usize)
        ensures
            r == (match self.crossterm_input_listener_retries {
                Some(n) => n,
                None => 10usize,
            }),
    {
        match self.crossterm_input_listener_retries {
            Some(n) => n,
            None => 10,
        }
    }

    /// Poll timeout in milliseconds (default 50).
    pub fn poll_timeout_ms(&self) -> (r: u64)
        ensures
            r == (match self.poll_timeout_ms {
                Some(n) => n,
                None => 50u64,
            }),
    {
        match self.poll_timeout_ms {
            Some(n) => n,
            None => 50,
        }
    }

    /// Tick interval in milliseconds (default 50).
    pub fn tick_interval_ms(&self) -> (r: u64)
        ensures
            r == (match self.tick_interval_millis {
                Some(n) => n,
                None => 50u64,
            }),
    {
        match self.tick_interval_millis {
            Some(n) => n,
            None => 50,
        }
    }

    /// Whether queue statistics are shown (default true).
    #[verifier::allow_in_spec]
    pub fn queue_stats_display_enabled(&self) -> bool
        returns
            match self.queue_stats_display_enabled {
                Some(b) => b,
                None => true,
            },
    {
        match self.queue_stats_display_enabled {
            Some(b) => b,
            None => true,
        }
    }

    /// Time to live of the queue statistics cache in seconds (default 60).
    #[verifier::allow_in_spec]
    pub fn queue_stats_cache_ttl_seconds(&self) -> u64
        returns
            match self.queue_stats_cache_ttl_seconds {
                Some(n) => n,
                None => 60u64,
            },
    {
        match self.queue_stats_cache_ttl_seconds {
            Some(n) => n,
            None => 60,
        }
    }

    /// Whether queue statistics come from the management API (default true).
    pub fn queue_stats_use_management_api(&self) -> (r: bool)
        ensures
            r == (match self.queue_stats_use_management_api {
                Some(b) => b,
                None => true,
            }),
    {
        match self.queue_stats_use_management_api {
            Some(b) => b,
            None => true,
        }
    }

    /// Time to live of the Azure resource cache in seconds (default 300).
    pub fn azure_resource_cache_ttl_seconds(&self) -> (r: u64)
        ensures
            r == (match self.azure_resource_cache_ttl_seconds {
                Some(n) => n,
                None => 300u64,
            }),
    {
        match self.azure_resource_cache_ttl_seconds {
            Some(n) => n,
            None => 300,
        }
    }

    /// Capacity of the Azure resource cache (default 100).
    pub fn azure_resource_cache_max_entries(&self) -> (r: usize)
        ensures
            r == (match self.azure_resource_cache_max_entries {
                Some(n) => n,
                None => 100usize,
            }),
    {
        match self.azure_resource_cache_max_entries {
            Some(n) => n,
            None => 100,
        }
    }

    /// The user interface settings.
    pub fn ui(&self) -> (r: &UIConfig)
        ensures
            *r == self.ui,
    {
        &self.ui
    }

    /// The key bindings.
    pub fn keys(&self) -> (r: &KeyBindingsConfig)
        ensures
            *r == self.keys,
    {
        &self.keys
    }

    /// The Service Bus settings.
    pub fn servicebus(&self) -> (r: &ServicebusConfig)
        ensures
            *r == self.servicebus,
    {
        &self.servicebus
    }

    /// The logging settings.
    pub fn logging(&self) -> (r: &LoggingConfig)
        ensures
            *r == self.logging,
    {
        &self.logging
    }

    /// The batch operation limits.
    pub fn batch(&self) -> (r: &BatchLimits)
        ensures
            *r == self.batch,
    {
        &self.batch
    }

    /// The Azure AD settings.
    pub fn azure_ad(&self) -> (r: &AzureAdSettings)
        ensures
            *r == self.azure_ad,
    {
        &self.azure_ad
    }

    /// Checks the configuration against its limits and its authentication
    /// setup; `Err` lists every problem, in the order of [`config_errors`].
    pub fn validate(&self, env: &AuthEnvironment) -> (r: Result<(), Vec<ConfigValidationError>>)
        ensures
            r is Ok <==> config_errors(*self, *env).len() == 0,
            r matches Err(errs) ==> error_views(errs@) == config_errors(*self, *env),
    {
        let mut errors: Vec<ConfigValidationError> = Vec::new();
        let page_size = self.page_size();
        let b = &self.batch;
        let ttl = self.queue_stats_cache_ttl_seconds();
        push_if(
            &mut errors,
            page_size < MIN_PAGE_SIZE,
            ConfigValidationError::PageSize {
                configured: page_size,
                min_limit: MIN_PAGE_SIZE,
                max_limit: MAX_PAGE_SIZE,
            },
        );
        push_if(
            &mut errors,
            page_size > MAX_PAGE_SIZE,
            ConfigValidationError::PageSize {
                configured: page_size,
                min_limit: MIN_PAGE_SIZE,
                max_limit: MAX_PAGE_SIZE,
            },
        );
        let ghost s1 = error_views(errors@);
        push_if(
            &mut errors,
            b.max_batch_size > AZURE_SERVICE_BUS_MAX_BATCH_SIZE,
            ConfigValidationError::BatchSize {
                configured: b.max_batch_size,
                limit: AZURE_SERVICE_BUS_MAX_BATCH_SIZE,
            },
        );
        push_if(
            &mut errors,
            b.operation_timeout_secs > MAX_OPERATION_TIMEOUT_SECS,
            ConfigValidationError::OperationTimeout {
                configured: b.operation_timeout_secs,
                limit: MAX_OPERATION_TIMEOUT_SECS,
            },
        );
        push_if(
            &mut errors,
            b.bulk_chunk_size > MAX_BULK_CHUNK_SIZE,
            ConfigValidationError::BulkChunkSize {
                configured: b.bulk_chunk_size,
                limit: MAX_BULK_CHUNK_SIZE,
            },
        );
        push_if(
            &mut errors,
            b.bulk_processing_time_secs > MAX_BULK_PROCESSING_TIME_SECS,
            ConfigValidationError::BulkProcessingTime {
                configured: b.bulk_processing_time_secs,
                limit: MAX_BULK_PROCESSING_TIME_SECS,
            },
        );
        push_if(
            &mut errors,
            b.lock_timeout_secs > MAX_LOCK_TIMEOUT_SECS,
            ConfigValidationError::LockTimeout {
                configured: b.lock_timeout_secs,
                limit: MAX_LOCK_TIMEOUT_SECS,
            },
        );
        push_if(
            &mut errors,
            b.max_messages_to_process > MAX_MESSAGES_TO_PROCESS_LIMIT,
            ConfigValidationError::MaxMessagesToProcess {
                configured: b.max_messages_to_process,
                limit: MAX_MESSAGES_TO_PROCESS_LIMIT,
            },
        );
        push_if(
            &mut errors,
            !(MIN_QUEUE_STATS_CACHE_TTL_SECONDS <= ttl && ttl <= MAX_QUEUE_STATS_CACHE_TTL_SECONDS),
            ConfigValidationError::QueueStatsCacheTtl {
                configured: ttl,
                min_limit: MIN_QUEUE_STATS_CACHE_TTL_SECONDS,
                max_limit: MAX_QUEUE_STATS_CACHE_TTL_SECONDS,
            },
        );
        self.validate_auth_config(env, &mut errors);
        assert(error_views(errors@) =~= config_errors(*self, *env));
        if errors.len() == 0 {
            Ok(())
        } else {
            Err(errors)
        }
    }

    fn validate_auth_config(&self, env: &AuthEnvironment, errors: &mut Vec<ConfigValidationError>)
        ensures
            error_views(final(errors)@) == error_views(old(errors)@) + auth_errors(*self, *env),
    {
        let method = self.azure_ad.auth_method.as_str();
        if str_eq(method, "connection_string") {
            proof {
                reveal_strlit("connection_string");
            }
            if !self.servicebus.has_connection_string() {
                push_error(
                    errors,
                    ConfigValidationError::ConflictingAuthConfig {
                        message: owned(
                            "Authentication method is set to 'connection_string' but no encrypted Service Bus connection string is provided.\n\nPlease either:\n1. Add servicebus.encrypted_connection_string and servicebus.encryption_salt to your config.toml\n2. Set SERVICEBUS__ENCRYPTED_CONNECTION_STRING and SERVICEBUS__ENCRYPTION_SALT environment variables\n3. Change azure_ad.auth_method to 'device_code' for Azure AD authentication",
                        ),
                    },
                );
            }
            assert(error_views(errors@) =~= error_views(old(errors)@) + auth_errors(*self, *env));
        } else if str_eq(method, "device_code") {
            self.validate_device_code_config(env, errors);
        } else if str_eq(method, "client_secret") {
            self.validate_device_code_config(env, errors);
            let ghost mid = error_views(errors@);
            if !self.azure_ad.has_client_secret && !env.client_secret
                && !env.encrypted_client_secret {
                push_error(
                    errors,
                    ConfigValidationError::MissingAzureAdField { field: owned("client_secret") },
                );
            }
            assert(error_views(errors@) =~= error_views(old(errors)@) + auth_errors(*self, *env));
        } else {
            push_error(errors, ConfigValidationError::InvalidAuthMethod { method: owned(method) });
            assert(error_views(errors@) =~= error_views(old(errors)@) + auth_errors(*self, *env));
        }
    }

    fn validate_device_code_config(
        &self,
        env: &AuthEnvironment,
        errors: &mut Vec<ConfigValidationError>,
    )
        ensures
            error_views(final(errors)@) == error_views(old(errors)@) + device_code_errors(
                self.azure_ad,
                *env,
            ),
    {
        if !self.azure_ad.has_tenant_id && !env.tenant_id {
            push_error(
                errors,
                ConfigValidationError::MissingAzureAdField { field: owned("tenant_id") },
            );
        }
        if !self.azure_ad.has_client_id && !env.client_id {
            push_error(
                errors,
                ConfigValidationError::MissingAzureAdField { field: owned("client_id") },
            );
        }
        assert(error_views(errors@) =~= error_views(old(errors)@) + device_code_errors(
            self.azure_ad,
            *env,
        ));
    }

    /// Whether the credentials the authentication method needs are present,
    /// in the configuration or in the environment.
    pub fn has_required_auth_fields(&self, env: &AuthEnvironment) -> (r: bool)
        ensures
            r == (if self.azure_ad.auth_method@ == "connection_string"@ {
                self.servicebus.has_connection_string_spec()
            } else if self.azure_ad.auth_method@ == "device_code"@ {
                (self.azure_ad.has_tenant_id || env.tenant_id) && (self.azure_ad.has_client_id
                    || env.client_id)
            } else if self.azure_ad.auth_method@ == "client_secret"@ {
                (self.azure_ad.has_tenant_id || env.tenant_id) && (self.azure_ad.has_client_id
                    || env.client_id) && (self.azure_ad.has_client_secret || env.client_secret
                    || env.encrypted_client_secret)
            } else {
                false
            }),
    {
        let method = self.azure_ad.auth_method.as_str();
        let ad = &self.azure_ad;
        if str_eq(method, "connection_string") {
            self.servicebus.has_connection_string()
        } else if str_eq(method, "device_code") {
            (ad.has_tenant_id || env.tenant_id) && (ad.has_client_id || env.client_id)
        } else if str_eq(method, "client_secret") {
            (ad.has_tenant_id || env.tenant_id) && (ad.has_client_id || env.client_id) && (
            ad.has_client_secret || env.client_secret || env.encrypted_client_secret)
        } else {
            false
        }
    }

    /// The encrypted credentials that need the master password, for the
    /// configured authentication method only.
    pub fn get_encrypted_auth_methods(&self, env: &AuthEnvironment) -> (r: Vec<String>)
        ensures
            r@.map_values(|s: String| s@) == (if self.azure_ad.auth_method@
                == "connection_string"@ && env.encrypted_connection_string && env.encryption_salt {
                seq!["Connection String"@]
            } else if self.azure_ad.auth_method@ == "client_secret"@ && env.encrypted_client_secret
                && env.client_secret_encryption_salt {
                seq!["Azure AD Client Secret"@]
            } else {
                Seq::empty()
            }),
    {
        let mut methods: Vec<String> = Vec::new();
        let method = self.azure_ad.auth_method.as_str();
        let is_connection_string = str_eq(method, "connection_string");
        let is_client_secret = str_eq(method, "client_secret");
        proof {
            reveal_strlit("connection_string");
            reveal_strlit("client_secret");
            assert("connection_string"@ != "client_secret"@) by {
                assert("connection_string"@[1] != "client_secret"@[1]);
            }
        }
        if is_connection_string && env.encrypted_connection_string && env.encryption_salt {
            methods.push(owned("Connection String"));
            assert(methods@.map_values(|s: String| s@) =~= seq!["Connection String"@]);
        } else if is_client_secret && env.encrypted_client_secret
            && env.client_secret_encryption_salt {
            methods.push(owned("Azure AD Client Secret"));
            assert(methods@.map_values(|s: String| s@) =~= seq!["Azure AD Client Secret"@]);
        } else {
            assert(methods@.map_values(|s: String| s@) =~= Seq::empty());
        }
        methods
    }
}

/// The page size in effect: the one chosen at runtime, else the configured
/// messages per page.
pub fn effective_page_size(chosen: Option<u32>, config: &AppConfig) -> (r: u32)
    ensures
        r == (match chosen {
            Some(n) => n,
            None => config.max_messages(),
        }),
{
    match chosen {
        Some(n) => n,
        None => config.max_messages(),
    }
}

/// A configuration value outside its allowed limits, or an inconsistent
/// authentication setup.
#[derive(Debug, Clone)]
pub enum ConfigValidationError {
    PageSize { configured: u32, min_limit: u32, max_limit: u32 },
    BatchSize { configured: u32, limit: u32 },
    OperationTimeout { configured: u64, limit: u64 },
    BulkChunkSize { configured: usize, limit: usize },
    BulkProcessingTime { configured: u64, limit: u64 },
    LockTimeout { configured: u64, limit: u64 },
    MaxMessagesToProcess { configured: usize, limit: usize },
    QueueStatsCacheTtl { configured: u64, min_limit: u64, max_limit: u64 },
    InvalidAuthMethod { method: String },
    MissingAzureAdField { field: String },
    InvalidAzureAdFlow { flow: String },
    ConflictingAuthConfig { message: String },
}

/// The content of a [`ConfigValidationError`].
pub enum ConfigValidationErrorView {
    PageSize { configured: nat, min_limit: nat, max_limit: nat },
    BatchSize { configured: nat, limit: nat },
    OperationTimeout { configured: nat, limit: nat },
    BulkChunkSize { configured: nat, limit: nat },
    BulkProcessingTime { configured: nat, limit: nat },
    LockTimeout { configured: nat, limit: nat },
    MaxMessagesToProcess { configured: nat, limit: nat },
    QueueStatsCacheTtl { configured: nat, min_limit: nat, max_limit: nat },
    InvalidAuthMethod { method: Seq<char> },
    MissingAzureAdField { field: Seq<char> },
    InvalidAzureAdFlow { flow: Seq<char> },
    ConflictingAuthConfig { message: Seq<char> },
}

impl View for ConfigValidationError {
    type V = ConfigValidationErrorView;

    open spec fn view(&self) -> ConfigValidationErrorView {
        match self {
            ConfigValidationError::PageSize { configured, min_limit, max_limit } => ConfigValidationErrorView::PageSize { configured: *configured as nat, min_limit: *min_limit as nat, max_limit: *max_limit as nat },
            ConfigValidationError::BatchSize { configured, limit } => ConfigValidationErrorView::BatchSize { configured: *configured as nat, limit: *limit as nat },
            ConfigValidationError::OperationTimeout { configured, limit } => ConfigValidationErrorView::OperationTimeout { configured: *configured as nat, limit: *limit as nat },
            ConfigValidationError::BulkChunkSize { configured, limit } => ConfigValidationErrorView::BulkChunkSize { configured: *configured as nat, limit: *limit as nat },
            ConfigValidationError::BulkProcessingTime { configured, limit } => ConfigValidationErrorView::BulkProcessingTime { configured: *configured as nat, limit: *limit as nat },
            ConfigValidationError::LockTimeout { configured, limit } => ConfigValidationErrorView::LockTimeout { configured: *configured as nat, limit: *limit as nat },
            ConfigValidationError::MaxMessagesToProcess { configured, limit } => ConfigValidationErrorView::MaxMessagesToProcess { configured: *configured as nat, limit: *limit as nat },
            ConfigValidationError::QueueStatsCacheTtl { configured, min_limit, max_limit } => ConfigValidationErrorView::QueueStatsCacheTtl { configured: *configured as nat, min_limit: *min_limit as nat, max_limit: *max_limit as nat },
            ConfigValidationError::InvalidAuthMethod { method } => ConfigValidationErrorView::InvalidAuthMethod { method: method@ },
            ConfigValidationError::MissingAzureAdField { field } => ConfigValidationErrorView::MissingAzureAdField { field: field@ },
            ConfigValidationError::InvalidAzureAdFlow { flow } => ConfigValidationErrorView::InvalidAzureAdFlow { flow: flow@ },
            ConfigValidationError::ConflictingAuthConfig { message } => ConfigValidationErrorView::ConflictingAuthConfig { message: message@ },
        }
    }
}

impl ConfigValidationErrorView {
    /// The explanation shown to the user.
    pub open spec fn message(self) -> Seq<char> {
        match self {
            ConfigValidationErrorView::PageSize { configured, min_limit, max_limit } => "Page size out of range!\n\nYour configured value: "@
                + decimal(configured)
                + "\nValid range: "@
                + decimal(min_limit)
                + " - "@
                + decimal(max_limit)
                + "\n\nPlease update page_size in config.toml to a value between "@
                + decimal(min_limit)
                + " and "@
                + decimal(max_limit)
                + "."@,
            ConfigValidationErrorView::BatchSize { configured, limit } => "Bulk batch size configuration error!\n\n\n                    Your configured value: "@
                + decimal(configured)
                + "\n\n                    Azure Service Bus limit: "@
                + decimal(limit)
                + "\n\n\n                    Please update max_batch_size in config.toml to "@
                + decimal(limit)
                + " or less."@,
            ConfigValidationErrorView::OperationTimeout { configured, limit } => "Operation timeout too high!\n\n\n                    Your configured value: "@
                + decimal(configured)
                + " seconds\n\n\n                    Recommended maximum: "@
                + decimal(limit)
                + " seconds\n\n\n                    Please update operation_timeout_secs in config.toml."@,
            ConfigValidationErrorView::BulkChunkSize { configured, limit } => "Bulk chunk size too high!\n\n\n                    Your configured value: "@
                + decimal(configured)
                + "\n\n\n                    Recommended maximum: "@
                + decimal(limit)
                + "\n\n\n                    Please update bulk_chunk_size in config.toml."@,
            ConfigValidationErrorView::BulkProcessingTime { configured, limit } => "Bulk processing time too high!\n\n\n                    Your configured value: "@
                + decimal(configured)
                + " seconds\n\n                    Recommended maximum: "@
                + decimal(limit)
                + " seconds\n\n\n                    Please update bulk_processing_time_secs in config.toml."@,
            ConfigValidationErrorView::LockTimeout { configured, limit } => "Lock timeout too high!\n\n\n                    Your configured value: "@
                + decimal(configured)
                + " seconds\n\n                    Recommended maximum: "@
                + decimal(limit)
                + " seconds\n\n\n                    Please update lock_timeout_secs in config.toml."@,
            ConfigValidationErrorView::MaxMessagesToProcess { configured, limit } => "Maximum messages to process too high!\n\n\n                    Your configured value: "@
                + decimal(configured)
                + "\n\n\n                    Recommended maximum: "@
                + decimal(limit)
                + "\n\n\n                    Please update max_messages_to_process in config.toml."@,
            ConfigValidationErrorView::QueueStatsCacheTtl { configured, min_limit, max_limit } => "Queue statistics cache TTL out of range!\n\nYour configured value: "@
                + decimal(configured)
                + " seconds\nValid range: "@
                + decimal(min_limit)
                + " - "@
                + decimal(max_limit)
                + " seconds\n\nPlease update queue_stats_cache_ttl_seconds in config.toml to a value between "@
                + decimal(min_limit)
                + " and "@
                + decimal(max_limit)
                + " seconds."@,
            ConfigValidationErrorView::InvalidAuthMethod { method } => "Invalid authentication method!\n\nYour configured value: "@
                + method
                + "\nValid methods: connection_string, device_code, client_secret\n\nPlease update azure_ad.auth_method in config.toml."@,
            ConfigValidationErrorView::MissingAzureAdField { field } => "Missing required Azure AD configuration!\n\nMissing field: "@
                + field
                + "\n\nWhen using azure_ad authentication with device_code flow, you must provide:\n- azure_ad.tenant_id (or AZURE_AD__TENANT_ID env var)\n- azure_ad.client_id (or AZURE_AD__CLIENT_ID env var)\n\nOther fields (subscription_id, resource_group, namespace) are optional and can be selected interactively after authentication."@,
            ConfigValidationErrorView::InvalidAzureAdFlow { flow } => "Invalid Azure AD authentication flow!\n\nYour configured value: "@
                + flow
                + "\nValid flow: device_code\n\nPlease update azure_ad.auth_method in config.toml."@,
            ConfigValidationErrorView::ConflictingAuthConfig { message } => "Conflicting authentication configuration!\n\n"@
                + message,
        }
    }

    /// The one-line description of the error.
    pub open spec fn summary(self) -> Seq<char> {
        match self {
            ConfigValidationErrorView::PageSize { configured, min_limit, max_limit } => "Invalid page_size: "@
                + decimal(configured)
                + " (min: "@
                + decimal(min_limit)
                + ", max: "@
                + decimal(max_limit)
                + ")"@,
            ConfigValidationErrorView::BatchSize { configured, limit } => "Invalid batch_size: "@
                + decimal(configured)
                + " (limit: "@
                + decimal(limit)
                + ")"@,
            ConfigValidationErrorView::OperationTimeout { configured, limit } => "Invalid operation_timeout_secs: "@
                + decimal(configured)
                + " (limit: "@
                + decimal(limit)
                + ")"@,
            ConfigValidationErrorView::BulkChunkSize { configured, limit } => "Invalid bulk_chunk_size: "@
                + decimal(configured)
                + " (limit: "@
                + decimal(limit)
                + ")"@,
            ConfigValidationErrorView::BulkProcessingTime { configured, limit } => "Invalid bulk_processing_time_secs: "@
                + decimal(configured)
                + " (limit: "@
                + decimal(limit)
                + ")"@,
            ConfigValidationErrorView::LockTimeout { configured, limit } => "Invalid lock_timeout_secs: "@
                + decimal(configured)
                + " (limit: "@
                + decimal(limit)
                + ")"@,
            ConfigValidationErrorView::MaxMessagesToProcess { configured, limit } => "Invalid max_messages_to_process: "@
                + decimal(configured)
                + " (limit: "@
                + decimal(limit)
                + ")"@,
            ConfigValidationErrorView::QueueStatsCacheTtl { configured, min_limit, max_limit } => "Invalid queue_stats_cache_ttl_seconds: "@
                + decimal(configured)
                + " (min: "@
                + decimal(min_limit)
                + ", max: "@
                + decimal(max_limit)
                + ")"@,
            ConfigValidationErrorView::InvalidAuthMethod { method } => "Invalid authentication method: "@
                + method,
            ConfigValidationErrorView::MissingAzureAdField { field } => "Missing required Azure AD configuration: "@
                + field,
            ConfigValidationErrorView::InvalidAzureAdFlow { flow } => "Invalid Azure AD flow: "@
                + flow,
            ConfigValidationErrorView::ConflictingAuthConfig { message } => "Conflicting authentication configuration: "@
                + message,
        }
    }
}

impl ConfigValidationError {
    /// The explanation shown to the user.
    pub fn user_message(&self) -> (r: String)
        ensures
            r@ == self@.message(),
    {
        match self {
            ConfigValidationError::PageSize { configured, min_limit, max_limit } => {
                let mut r = String::new();
                r.append("Page size out of range!\n\nYour configured value: ");
                r.append(unsigned_to_string(*configured as u128).as_str());
                r.append("\nValid range: ");
                r.append(unsigned_to_string(*min_limit as u128).as_str());
                r.append(" - ");
                r.append(unsigned_to_string(*max_limit as u128).as_str());
                r.append("\n\nPlease update page_size in config.toml to a value between ");
                r.append(unsigned_to_string(*min_limit as u128).as_str());
                r.append(" and ");
                r.append(unsigned_to_string(*max_limit as u128).as_str());
                r.append(".");
                r
            },
            ConfigValidationError::BatchSize { configured, limit } => {
                let mut r = String::new();
                r.append("Bulk batch size configuration error!\n\n\n                    Your configured value: ");
                r.append(unsigned_to_string(*configured as u128).as_str());
                r.append("\n\n                    Azure Service Bus limit: ");
                r.append(unsigned_to_string(*limit as u128).as_str());
                r.append("\n\n\n                    Please update max_batch_size in config.toml to ");
                r.append(unsigned_to_string(*limit as u128).as_str());
                r.append(" or less.");
                r
            },
            ConfigValidationError::OperationTimeout { configured, limit } => {
                let mut r = String::new();
                r.append("Operation timeout too high!\n\n\n                    Your configured value: ");
                r.append(unsigned_to_string(*configured as u128).as_str());
                r.append(" seconds\n\n\n                    Recommended maximum: ");
                r.append(unsigned_to_string(*limit as u128).as_str());
                r.append(" seconds\n\n\n                    Please update operation_timeout_secs in config.toml.");
                r
            },
            ConfigValidationError::BulkChunkSize { configured, limit } => {
                let mut r = String::new();
                r.append("Bulk chunk size too high!\n\n\n                    Your configured value: ");
                r.append(unsigned_to_string(*configured as u128).as_str());
                r.append("\n\n\n                    Recommended maximum: ");
                r.append(unsigned_to_string(*limit as u128).as_str());
                r.append("\n\n\n                    Please update bulk_chunk_size in config.toml.");
                r
            },
            ConfigValidationError::BulkProcessingTime { configured, limit } => {
                let mut r = String::new();
                r.append("Bulk processing time too high!\n\n\n                    Your configured value: ");
                r.append(unsigned_to_string(*configured as u128).as_str());
                r.append(" seconds\n\n                    Recommended maximum: ");
                r.append(unsigned_to_string(*limit as u128).as_str());
                r.append(" seconds\n\n\n                    Please update bulk_processing_time_secs in config.toml.");
                r
            },
            ConfigValidationError::LockTimeout { configured, limit } => {
                let mut r = String::new();
                r.append("Lock timeout too high!\n\n\n                    Your configured value: ");
                r.append(unsigned_to_string(*configured as u128).as_str());
                r.append(" seconds\n\n                    Recommended maximum: ");
                r.append(unsigned_to_string(*limit as u128).as_str());
                r.append(" seconds\n\n\n                    Please update lock_timeout_secs in config.toml.");
                r
            },
            ConfigValidationError::MaxMessagesToProcess { configured, limit } => {
                let mut r = String::new();
                r.append("Maximum messages to process too high!\n\n\n                    Your configured value: ");
                r.append(unsigned_to_string(*configured as u128).as_str());
                r.append("\n\n\n                    Recommended maximum: ");
                r.append(unsigned_to_string(*limit as u128).as_str());
                r.append("\n\n\n                    Please update max_messages_to_process in config.toml.");
                r
            },
            ConfigValidationError::QueueStatsCacheTtl { configured, min_limit, max_limit } => {
                let mut r = String::new();
                r.append("Queue statistics cache TTL out of range!\n\nYour configured value: ");
                r.append(unsigned_to_string(*configured as u128).as_str());
                r.append(" seconds\nValid range: ");
                r.append(unsigned_to_string(*min_limit as u128).as_str());
                r.append(" - ");
                r.append(unsigned_to_string(*max_limit as u128).as_str());
                r.append(" seconds\n\nPlease update queue_stats_cache_ttl_seconds in config.toml to a value between ");
                r.append(unsigned_to_string(*min_limit as u128).as_str());
                r.append(" and ");
                r.append(unsigned_to_string(*max_limit as u128).as_str());
                r.append(" seconds.");
                r
            },
            ConfigValidationError::InvalidAuthMethod { method } => {
                let mut r = String::new();
                r.append("Invalid authentication method!\n\nYour configured value: ");
                r.append(method.as_str());
                r.append("\nValid methods: connection_string, device_code, client_secret\n\nPlease update azure_ad.auth_method in config.toml.");
                r
            },
            ConfigValidationError::MissingAzureAdField { field } => {
                let mut r = String::new();
                r.append("Missing required Azure AD configuration!\n\nMissing field: ");
                r.append(field.as_str());
                r.append("\n\nWhen using azure_ad authentication with device_code flow, you must provide:\n- azure_ad.tenant_id (or AZURE_AD__TENANT_ID env var)\n- azure_ad.client_id (or AZURE_AD__CLIENT_ID env var)\n\nOther fields (subscription_id, resource_group, namespace) are optional and can be selected interactively after authentication.");
                r
            },
            ConfigValidationError::InvalidAzureAdFlow { flow } => {
                let mut r = String::new();
                r.append("Invalid Azure AD authentication flow!\n\nYour configured value: ");
                r.append(flow.as_str());
                r.append("\nValid flow: device_code\n\nPlease update azure_ad.auth_method in config.toml.");
                r
            },
            ConfigValidationError::ConflictingAuthConfig { message } => {
                let mut r = String::new();
                r.append("Conflicting authentication configuration!\n\n");
                r.append(message.as_str());
                r
            },
        }
    }

    /// The one-line description of the error.
    pub fn summary(&self) -> (r: String)
        ensures
            r@ == self@.summary(),
    {
        match self {
            ConfigValidationError::PageSize { configured, min_limit, max_limit } => {
                let mut r = String::new();
                r.append("Invalid page_size: ");
                r.append(unsigned_to_string(*configured as u128).as_str());
                r.append(" (min: ");
                r.append(unsigned_to_string(*min_limit as u128).as_str());
                r.append(", max: ");
                r.append(unsigned_to_string(*max_limit as u128).as_str());
                r.append(")");
                r
            },
            ConfigValidationError::BatchSize { configured, limit } => {
                let mut r = String::new();
                r.append("Invalid batch_size: ");
                r.append(unsigned_to_string(*configured as u128).as_str());
                r.append(" (limit: ");
                r.append(unsigned_to_string(*limit as u128).as_str());
                r.append(")");
                r
            },
            ConfigValidationError::OperationTimeout { configured, limit } => {
                let mut r = String::new();
                r.append("Invalid operation_timeout_secs: ");
                r.append(unsigned_to_string(*configured as u128).as_str());
                r.append(" (limit: ");
                r.append(unsigned_to_string(*limit as u128).as_str());
                r.append(")");
                r
            },
            ConfigValidationError::BulkChunkSize { configured, limit } => {
                let mut r = String::new();
                r.append("Invalid bulk_chunk_size: ");
                r.append(unsigned_to_string(*configured as u128).as_str());
                r.append(" (limit: ");
                r.append(unsigned_to_string(*limit as u128).as_str());
                r.append(")");
                r
            },
            ConfigValidationError::BulkProcessingTime { configured, limit } => {
                let mut r = String::new();
                r.append("Invalid bulk_processing_time_secs: ");
                r.append(unsigned_to_string(*configured as u128).as_str());
                r.append(" (limit: ");
                r.append(unsigned_to_string(*limit as u128).as_str());
                r.append(")");
                r
            },
            ConfigValidationError::LockTimeout { configured, limit } => {
                let mut r = String::new();
                r.append("Invalid lock_timeout_secs: ");
                r.append(unsigned_to_string(*configured as u128).as_str());
                r.append(" (limit: ");
                r.append(unsigned_to_string(*limit as u128).as_str());
                r.append(")");
                r
            },
            ConfigValidationError::MaxMessagesToProcess { configured, limit } => {
                let mut r = String::new();
                r.append("Invalid max_messages_to_process: ");
                r.append(unsigned_to_string(*configured as u128).as_str());
                r.append(" (limit: ");
                r.append(unsigned_to_string(*limit as u128).as_str());
                r.append(")");
                r
            },
            ConfigValidationError::QueueStatsCacheTtl { configured, min_limit, max_limit } => {
                let mut r = String::new();
                r.append("Invalid queue_stats_cache_ttl_seconds: ");
                r.append(unsigned_to_string(*configured as u128).as_str());
                r.append(" (min: ");
                r.append(unsigned_to_string(*min_limit as u128).as_str());
                r.append(", max: ");
                r.append(unsigned_to_string(*max_limit as u128).as_str());
                r.append(")");
                r
            },
            ConfigValidationError::InvalidAuthMethod { method } => {
                let mut r = String::new();
                r.append("Invalid authentication method: ");
                r.append(method.as_str());
                r
            },
            ConfigValidationError::MissingAzureAdField { field } => {
                let mut r = String::new();
                r.append("Missing required Azure AD configuration: ");
                r.append(field.as_str());
                r
            },
            ConfigValidationError::InvalidAzureAdFlow { flow } => {
                let mut r = String::new();
                r.append("Invalid Azure AD flow: ");
                r.append(flow.as_str());
                r
            },
            ConfigValidationError::ConflictingAuthConfig { message } => {
                let mut r = String::new();
                r.append("Conflicting authentication configuration: ");
                r.append(message.as_str());
                r
            },
        }
    }

}

// ---------------------------------------------------------------------------
// Reloading
// ---------------------------------------------------------------------------

/// The one-line descriptions of `errs`, separated by `; `.
pub open spec fn joined_summaries(errs: Seq<ConfigValidationErrorView>) -> Seq<char>
    decreases errs.len(),
{
    if errs.len() == 0 {
        Seq::empty()
    } else if errs.len() == 1 {
        errs[0].summary()
    } else {
        joined_summaries(errs.drop_last()) + "; "@ + errs.last().summary()
    }
}

/// Why a reloaded configuration is refused: its problems.
pub open spec fn reload_refusal(errs: Seq<ConfigValidationErrorView>) -> Seq<char> {
    "Configuration validation failed: "@ + joined_summaries(errs)
}

/// What a reload leaves in effect and reports, given the configuration in
/// effect and the result of loading afresh.
pub open spec fn reload_outcome(
    current: Option<AppConfig>,
    fresh: ConfigLoadResult,
    env: AuthEnvironment,
) -> (Option<AppConfig>, Result<(), Seq<char>>) {
    match fresh {
        ConfigLoadResult::Success(c) => if config_errors(*c, env).len() == 0 {
            (Some(*c), Ok(()))
        } else {
            (current, Err(reload_refusal(config_errors(*c, env))))
        },
        ConfigLoadResult::LoadError(m) => (current, Err(m@)),
        ConfigLoadResult::DeserializeError(m) => (current, Err(m@)),
    }
}

/// The description of a list of problems, as reported by a refused reload.
fn describe_errors(errs: &Vec<ConfigValidationError>) -> (r: String)
    ensures
        r@ == reload_refusal(error_views(errs@)),
{
    let mut text = owned("Configuration validation failed: ");
    let ghost head = "Configuration validation failed: "@;
    let mut i: usize = 0;
    while i < errs.len()
        invariant
            i <= errs.len(),
            text@ == head + joined_summaries(error_views(errs@).take(i as int)),
            head == "Configuration validation failed: "@,
        decreases errs.len() - i,
    {
        let ghost before = error_views(errs@).take(i as int);
        let ghost after = error_views(errs@).take(i as int + 1);
        proof {
            assert(after.drop_last() =~= before);
            assert(after.last() == errs@[i as int]@);
        }
        if i > 0 {
            text.append("; ");
        }
        let line = errs[i].summary();
        text.append(line.as_str());
        proof {
            if i == 0 {
                assert(before =~= Seq::<ConfigValidationErrorView>::empty());
                assert(joined_summaries(before) =~= Seq::<char>::empty());
            }
            assert(text@ =~= head + joined_summaries(after));
        }
        i = i + 1;
    }
    proof {
        assert(error_views(errs@).take(errs.len() as int) =~= error_views(errs@));
    }
    text
}

/// Reloads the configuration: a freshly loaded configuration replaces the
/// one in effect only when it loaded and passes validation; otherwise the
/// configuration in effect stays and the failure is reported.
pub fn reload_config(
    current: Option<AppConfig>,
    fresh: ConfigLoadResult,
    env: &AuthEnvironment,
) -> (r: (Option<AppConfig>, Result<(), String>))
    ensures
        r.0 == reload_outcome(current, fresh, *env).0,
        match (r.1, reload_outcome(current, fresh, *env).1) {
            (Ok(()), Ok(())) => true,
            (Err(e), Err(t)) => e@ == t,
            _ => false,
        },
        r.1 is Err ==> r.0 == current,
        r.1 is Ok ==> (r.0 matches Some(c) && config_errors(c, *env).len() == 0),
{
    match fresh {
        ConfigLoadResult::Success(c) => match c.validate(env) {
            Ok(()) => (Some(*c), Ok(())),
            Err(errs) => {
                let text = describe_errors(&errs);
                (current, Err(text))
            },
        },
        ConfigLoadResult::LoadError(m) => (current, Err(m)),
        ConfigLoadResult::DeserializeError(m) => (current, Err(m)),
    }
}

// ---------------------------------------------------------------------------
// Laws of the validation
// ---------------------------------------------------------------------------

/// An element of a concatenation is an element of one of its parts.
broadcast proof fn lemma_concat_contains(
    a: Seq<ConfigValidationErrorView>,
    b: Seq<ConfigValidationErrorView>,
    x: ConfigValidationErrorView,
)
    ensures
        #[trigger] (a + b).contains(x) <==> a.contains(x) || b.contains(x),
{
    if a.contains(x) {
        let i = choose|i: int| 0 <= i < a.len() && a[i] == x;
        assert((a + b)[i] == x);
    }
    if b.contains(x) {
        let j = choose|j: int| 0 <= j < b.len() && b[j] == x;
        assert((a + b)[a.len() + j] == x);
    }
    if (a + b).contains(x) {
        let k = choose|k: int| 0 <= k < (a + b).len() && (a + b)[k] == x;
        if k < a.len() {
            assert(a[k] == x);
        } else {
            assert(b[k - a.len()] == x);
        }
    }
}

/// A reported error is in the list.
broadcast proof fn lemma_when_contains(cond: bool, e: ConfigValidationErrorView)
    ensures
        #[trigger] when(cond, e).contains(e) <==> cond,
{
    if cond {
        assert(when(cond, e)[0] == e);
    }
}

/// Every limit a configuration breaks is reported, with the configured value
/// and the limit: page size 100 to 1000, batch size at most 2048, operation
/// timeout at most 1200 s, bulk chunks at most 500, bulk processing at most
/// 300 s, lock timeout at most 30 s, at most 10000 messages to process, and a
/// statistics cache TTL of 30 to 3600 s. Each such configuration is refused
/// by [`AppConfig::validate`].
pub proof fn lemma_broken_limits_are_reported(c: AppConfig, env: AuthEnvironment)
    ensures
        (c.page_size() < 100 || c.page_size() > 1000) ==> config_errors(c, env).contains(
            ConfigValidationErrorView::PageSize {
                configured: c.page_size() as nat,
                min_limit: 100,
                max_limit: 1000,
            },
        ),
        c.batch.max_batch_size > 2048 ==> config_errors(c, env).contains(
            ConfigValidationErrorView::BatchSize {
                configured: c.batch.max_batch_size as nat,
                limit: 2048,
            },
        ),
        c.batch.operation_timeout_secs > 1200 ==> config_errors(c, env).contains(
            ConfigValidationErrorView::OperationTimeout {
                configured: c.batch.operation_timeout_secs as nat,
                limit: 1200,
            },
        ),
        c.batch.bulk_chunk_size > 500 ==> config_errors(c, env).contains(
            ConfigValidationErrorView::BulkChunkSize {
                configured: c.batch.bulk_chunk_size as nat,
                limit: 500,
            },
        ),
        c.batch.bulk_processing_time_secs > 300 ==> config_errors(c, env).contains(
            ConfigValidationErrorView::BulkProcessingTime {
                configured: c.batch.bulk_processing_time_secs as nat,
                limit: 300,
            },
        ),
        c.batch.lock_timeout_secs > 30 ==> config_errors(c, env).contains(
            ConfigValidationErrorView::LockTimeout {
                configured: c.batch.lock_timeout_secs as nat,
                limit: 30,
            },
        ),
        c.batch.max_messages_to_process > 10000 ==> config_errors(c, env).contains(
            ConfigValidationErrorView::MaxMessagesToProcess {
                configured: c.batch.max_messages_to_process as nat,
                limit: 10000,
            },
        ),
        (c.queue_stats_cache_ttl_seconds() < 30 || c.queue_stats_cache_ttl_seconds() > 3600)
            ==> config_errors(c, env).contains(
            ConfigValidationErrorView::QueueStatsCacheTtl {
                configured: c.queue_stats_cache_ttl_seconds() as nat,
                min_limit: 30,
                max_limit: 3600,
            },
        ),
{
    broadcast use lemma_concat_contains, lemma_when_contains;
}

/// Every missing credential of the chosen authentication method is reported,
/// and an unknown method is refused: device code needs a tenant and a client
/// id, client secret also a client secret (plain or encrypted), connection
/// string a stored connection string; each may come from the file or the
/// environment.
pub proof fn lemma_auth_problems_are_reported(c: AppConfig, env: AuthEnvironment)
    ensures
        ({
            let m = c.azure_ad.auth_method@;
            let errs = config_errors(c, env);
            &&& (m == "device_code"@ || m == "client_secret"@) && !c.azure_ad.has_tenant_id
                && !env.tenant_id ==> errs.contains(
                ConfigValidationErrorView::MissingAzureAdField { field: "tenant_id"@ },
            )
            &&& (m == "device_code"@ || m == "client_secret"@) && !c.azure_ad.has_client_id
                && !env.client_id ==> errs.contains(
                ConfigValidationErrorView::MissingAzureAdField { field: "client_id"@ },
            )
            &&& m == "client_secret"@ && !c.azure_ad.has_client_secret && !env.client_secret
                && !env.encrypted_client_secret ==> errs.contains(
                ConfigValidationErrorView::MissingAzureAdField { field: "client_secret"@ },
            )
            &&& m == "connection_string"@ && !c.servicebus.has_connection_string_spec()
                ==> errs.contains(
                ConfigValidationErrorView::ConflictingAuthConfig {
                    message: missing_connection_string_message(),
                },
            )
            &&& m != "connection_string"@ && m != "device_code"@ && m != "client_secret"@
                ==> errs.contains(ConfigValidationErrorView::InvalidAuthMethod { method: m })
        }),
{
    broadcast use lemma_concat_contains, lemma_when_contains;
    lemma_auth_methods_differ();
    let m = c.azure_ad.auth_method@;
    assert(seq![ConfigValidationErrorView::InvalidAuthMethod { method: m }][0]
        == ConfigValidationErrorView::InvalidAuthMethod { method: m });
}

/// The names of the three authentication methods are distinct.
pub(crate) proof fn lemma_auth_methods_differ()
    ensures
        "connection_string"@ != "device_code"@,
        "connection_string"@ != "client_secret"@,
        "device_code"@ != "client_secret"@,
{
    reveal_strlit("connection_string");
    reveal_strlit("device_code");
    reveal_strlit("client_secret");
    assert("connection_string"@[1] != "device_code"@[1]);
    assert("connection_string"@[1] != "client_secret"@[1]);
    assert("device_code"@[0] != "client_secret"@[0]);
}

/// A configuration within every limit, whose authentication method has what
/// it needs, is accepted: [`AppConfig::validate`] reports nothing.
pub proof fn lemma_sound_configuration_is_accepted(c: AppConfig, env: AuthEnvironment)
    requires
        100 <= c.page_size() <= 1000,
        c.batch.max_batch_size <= 2048,
        c.batch.operation_timeout_secs <= 1200,
        c.batch.bulk_chunk_size <= 500,
        c.batch.bulk_processing_time_secs <= 300,
        c.batch.lock_timeout_secs <= 30,
        c.batch.max_messages_to_process <= 10000,
        30 <= c.queue_stats_cache_ttl_seconds() <= 3600,
        ({
            let m = c.azure_ad.auth_method@;
            let ad = c.azure_ad;
            ||| m == "connection_string"@ && c.servicebus.has_connection_string_spec()
            ||| m == "device_code"@ && (ad.has_tenant_id || env.tenant_id) && (ad.has_client_id
                || env.client_id)
            ||| m == "client_secret"@ && (ad.has_tenant_id || env.tenant_id) && (ad.has_client_id
                || env.client_id) && (ad.has_client_secret || env.client_secret
                || env.encrypted_client_secret)
        }),
    ensures
        config_errors(c, env).len() == 0,
{
    lemma_auth_methods_differ();
}

} // verus!
