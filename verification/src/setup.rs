//! Where the configuration lives, which configuration file is used, and the
//! decisions and text of the first-run setup wizard.
use vstd::prelude::*;
use crate::profiles::{join_path, path_join, profile_name_outcome, text_result, validate_profile_name};
use crate::text::{
    contains, lowercase_text, owned, spec_lowercase, starts_with, str_contains, str_starts_with,
    str_trim, trim,
};

verus! {

// ---------------------------------------------------------------------------
// Configuration directory
// ---------------------------------------------------------------------------

/// Why the configuration directory could not be set up.
#[derive(Debug, Clone, PartialEq)]
pub enum SetupError {
    ConfigDirError(String),
    CreateDirError { path: String, source: String },
    WriteFileError { path: String, source: String },
    PermissionError { path: String, source: String },
}

/// The message of a setup error.
pub open spec fn setup_error_text(e: SetupError) -> Seq<char> {
    match e {
        SetupError::ConfigDirError(m) => "Failed to determine config directory: "@ + m@,
        SetupError::CreateDirError { path, source } => "Failed to create directory "@ + path@
            + ": "@ + source@,
        SetupError::WriteFileError { path, source } => "Failed to write file "@ + path@ + ": "@
            + source@,
        SetupError::PermissionError { path, source } => "Failed to set file permissions for "@
            + path@ + ": "@ + source@,
    }
}

impl SetupError {
    /// The message of the error.
    pub fn to_string(&self) -> (r: String)
        ensures
            r@ == setup_error_text(*self),
    {
        match self {
            SetupError::ConfigDirError(m) => {
                let mut r = owned("Failed to determine config directory: ");
                r.append(m.as_str());
                r
            },
            SetupError::CreateDirError { path, source } => {
                let mut r = owned("Failed to create directory ");
                r.append(path.as_str());
                r.append(": ");
                r.append(source.as_str());
                r
            },
            SetupError::WriteFileError { path, source } => {
                let mut r = owned("Failed to write file ");
                r.append(path.as_str());
                r.append(": ");
                r.append(source.as_str());
                r
            },
            SetupError::PermissionError { path, source } => {
                let mut r = owned("Failed to set file permissions for ");
                r.append(path.as_str());
                r.append(": ");
                r.append(source.as_str());
                r
            },
        }
    }
}

/// The configuration directory: `.config/quetty` under the home directory
/// where the platform is Unix-like and the home is known, otherwise
/// `quetty` under the platform's configuration directory.
pub open spec fn config_dir_outcome(
    unix: bool,
    home: Option<Seq<char>>,
    platform_config: Option<Seq<char>>,
) -> Result<Seq<char>, Seq<char>> {
    if unix && home is Some {
        Ok(path_join(path_join(home->0, ".config"@), "quetty"@))
    } else {
        match platform_config {
            Some(dir) => Ok(path_join(dir, "quetty"@)),
            None => Err("Unable to determine config directory"@),
        }
    }
}

/// The view of a path result.
pub open spec fn path_result(r: Result<String, SetupError>) -> Result<Seq<char>, Seq<char>> {
    match r {
        Ok(p) => Ok(p@),
        Err(SetupError::ConfigDirError(m)) => Err(m@),
        Err(e) => Err(setup_error_text(e)),
    }
}

/// The configuration directory, from the home directory and the platform's
/// configuration directory (see [`config_dir_outcome`]).
pub fn get_config_dir(unix: bool, home: Option<String>, platform_config: Option<String>) -> (r: Result<
    String,
    SetupError,
>)
    ensures
        path_result(r) == config_dir_outcome(
            unix,
            crate::validation_patterns::opt_view(home),
            crate::validation_patterns::opt_view(platform_config),
        ),
        r matches Err(e) ==> e is ConfigDirError,
{
    if unix {
        if let Some(home_path) = &home {
            let dot_config = join_path(home_path.as_str(), ".config");
            return Ok(join_path(dot_config.as_str(), "quetty"));
        }
    }
    match platform_config {
        Some(dir) => Ok(join_path(dir.as_str(), "quetty")),
        None => Err(SetupError::ConfigDirError(owned("Unable to determine config directory"))),
    }
}

/// `config.toml` in the configuration directory.
pub fn get_config_file_path(config_dir: Result<String, SetupError>) -> (r: Result<String, SetupError>)
    ensures
        match config_dir {
            Ok(d) => r matches Ok(p) && p@ == path_join(d@, "config.toml"@),
            Err(e) => r == Err::<String, SetupError>(e),
        },
{
    match config_dir {
        Ok(d) => Ok(join_path(d.as_str(), "config.toml")),
        Err(e) => Err(e),
    }
}

/// `themes` in the configuration directory.
pub fn get_themes_dir(config_dir: Result<String, SetupError>) -> (r: Result<String, SetupError>)
    ensures
        match config_dir {
            Ok(d) => r matches Ok(p) && p@ == path_join(d@, "themes"@),
            Err(e) => r == Err::<String, SetupError>(e),
        },
{
    match config_dir {
        Ok(d) => Ok(join_path(d.as_str(), "themes")),
        Err(e) => Err(e),
    }
}

/// Whether the configuration file exists: false where its path is unknown.
pub fn is_config_initialized(config_file: Result<String, SetupError>, file_exists: bool) -> (r: bool)
    ensures
        r == (config_file is Ok && file_exists),
{
    match config_file {
        Ok(_) => file_exists,
        Err(_) => false,
    }
}

/// The directories and file the setup creates in the configuration
/// directory: `themes`, `profiles`, `profiles/default` and its `.env`.
pub struct ConfigLayout {
    pub themes_dir: String,
    pub profiles_dir: String,
    pub default_profile_dir: String,
    pub env_file: String,
}

/// The layout of the configuration directory `config_dir`.
pub fn config_layout(config_dir: &str) -> (r: ConfigLayout)
    ensures
        r.themes_dir@ == path_join(config_dir@, "themes"@),
        r.profiles_dir@ == path_join(config_dir@, "profiles"@),
        r.default_profile_dir@ == path_join(path_join(config_dir@, "profiles"@), "default"@),
        r.env_file@ == path_join(
            path_join(path_join(config_dir@, "profiles"@), "default"@),
            ".env"@,
        ),
{
    let themes_dir = join_path(config_dir, "themes");
    let profiles_dir = join_path(config_dir, "profiles");
    let default_profile_dir = join_path(profiles_dir.as_str(), "default");
    let env_file = join_path(default_profile_dir.as_str(), ".env");
    ConfigLayout { themes_dir, profiles_dir, default_profile_dir, env_file }
}

/// The `.env` file written for the default profile: comments only.
pub fn default_env_content() -> (r: &'static str)
    ensures
        r@ == "# Environment variables for default profile\n# SECRETS AND AUTHENTICATION ONLY\n# For other settings, create config.toml or keys.toml in this directory\n\n# Add your Azure credentials here\n# AZURE_AD__TENANT_ID=your-tenant-id\n# AZURE_AD__CLIENT_ID=your-client-id\n# AZURE_AD__CLIENT_SECRET=your-client-secret\n"@,
{
    "# Environment variables for default profile\n# SECRETS AND AUTHENTICATION ONLY\n# For other settings, create config.toml or keys.toml in this directory\n\n# Add your Azure credentials here\n# AZURE_AD__TENANT_ID=your-tenant-id\n# AZURE_AD__CLIENT_ID=your-client-id\n# AZURE_AD__CLIENT_SECRET=your-client-secret\n"
}

/// The configuration file used: `config.toml` in the current directory,
/// else in its parent, else the standard one; each only where it exists.
pub fn find_config_file(
    current_dir_exists: bool,
    parent_dir_exists: bool,
    standard: Result<String, SetupError>,
    standard_exists: bool,
) -> (r: Option<String>)
    ensures
        current_dir_exists ==> (r matches Some(p) && p@ == "config.toml"@),
        !current_dir_exists && parent_dir_exists ==> (r matches Some(p) && p@ == "../config.toml"@),
        !current_dir_exists && !parent_dir_exists ==> match standard {
            Ok(p) => if standard_exists {
                r matches Some(q) && q@ == p@
            } else {
                r is None
            },
            Err(_) => r is None,
        },
{
    if current_dir_exists {
        return Some(owned("config.toml"));
    }
    if parent_dir_exists {
        return Some(owned("../config.toml"));
    }
    match standard {
        Ok(p) => if standard_exists {
            Some(p)
        } else {
            None
        },
        Err(_) => None,
    }
}

/// The configuration file to load: the one given on the command line, else
/// the default profile's `config.toml` where it exists, else the one
/// [`find_config_file`] found.
pub fn choose_config_path(
    custom: Option<&str>,
    profile_config: Option<String>,
    discovered: Option<String>,
) -> (r: Option<String>)
    ensures
        match custom {
            Some(c) => r matches Some(p) && p@ == c@,
            None => match profile_config {
                Some(p) => r == Some(p),
                None => r == discovered,
            },
        },
{
    match custom {
        Some(c) => Some(owned(c)),
        None => match profile_config {
            Some(p) => Some(p),
            None => discovered,
        },
    }
}

/// Why the configuration could not be loaded.
#[derive(Debug, Clone, PartialEq)]
pub enum ConfigLoadFailure {
    /// The file given on the command line is missing and could not be
    /// created with the defaults.
    CustomFileNotCreated { path: String, error: String },
    /// The file, or the environment, could not be read.
    LoadFailed { path: String, error: String },
    /// The configuration written with the defaults could not be read.
    NewConfigNotLoaded { error: String },
    /// No configuration file was found after writing the defaults.
    NewConfigNotFound,
    /// No configuration file was found and the defaults could not be written.
    DefaultsNotWritten { error: String },
    /// The configuration does not have the expected shape.
    NotDeserialized { error: String },
}

/// The message of a configuration load failure.
pub open spec fn load_failure_text(f: ConfigLoadFailure) -> Seq<char> {
    match f {
        ConfigLoadFailure::CustomFileNotCreated { path, error } => "Custom config file '"@ + path@
            + "' does not exist and failed to create it with defaults: "@ + error@
            + "\n\nSuggestions:\n1. Create the config file manually\n2. Use 'quetty --setup' for interactive configuration\n3. Run without --config to use default locations"@,
        ConfigLoadFailure::LoadFailed { path, error } => "Configuration loading failed from "@ + path@
            + ": "@ + error@
            + ". Please check your config file and environment variables."@,
        ConfigLoadFailure::NewConfigNotLoaded { error } => "Failed to load newly created config: "@
            + error@,
        ConfigLoadFailure::NewConfigNotFound => "Failed to find config file after initialization"@,
        ConfigLoadFailure::DefaultsNotWritten { error } =>
            "No configuration file found and failed to initialize defaults: "@ + error@
            + ". Please create a config.toml file or run with --setup flag."@,
        ConfigLoadFailure::NotDeserialized { error } => "Failed to deserialize config: "@ + error@,
    }
}

impl ConfigLoadFailure {
    /// The message reported for the failure.
    pub fn message(&self) -> (r: String)
        ensures
            r@ == load_failure_text(*self),
    {
        match self {
            ConfigLoadFailure::CustomFileNotCreated { path, error } => {
                let mut m = owned("Custom config file '");
                m.append(path.as_str());
                m.append("' does not exist and failed to create it with defaults: ");
                m.append(error.as_str());
                m.append(
                    "\n\nSuggestions:\n1. Create the config file manually\n2. Use 'quetty --setup' for interactive configuration\n3. Run without --config to use default locations",
                );
                m
            },
            ConfigLoadFailure::LoadFailed { path, error } => {
                let mut m = owned("Configuration loading failed from ");
                m.append(path.as_str());
                m.append(": ");
                m.append(error.as_str());
                m.append(". Please check your config file and environment variables.");
                m
            },
            ConfigLoadFailure::NewConfigNotLoaded { error } => {
                let mut m = owned("Failed to load newly created config: ");
                m.append(error.as_str());
                m
            },
            ConfigLoadFailure::NewConfigNotFound => owned(
                "Failed to find config file after initialization",
            ),
            ConfigLoadFailure::DefaultsNotWritten { error } => {
                let mut m = owned("No configuration file found and failed to initialize defaults: ");
                m.append(error.as_str());
                m.append(". Please create a config.toml file or run with --setup flag.");
                m
            },
            ConfigLoadFailure::NotDeserialized { error } => {
                let mut m = owned("Failed to deserialize config: ");
                m.append(error.as_str());
                m
            },
        }
    }
}

// ---------------------------------------------------------------------------
// Setup wizard
// ---------------------------------------------------------------------------

/// Creates or updates a profile interactively.
pub struct SetupWizard;

/// The authentication method of a menu answer: 1 device code, 2 client
/// secret, 3 connection string; surrounding whitespace is ignored.
pub open spec fn auth_choice(input: Seq<char>) -> Option<Seq<char>> {
    let t = trim(input);
    if t == "1"@ {
        Some("device_code"@)
    } else if t == "2"@ {
        Some("client_secret"@)
    } else if t == "3"@ {
        Some("connection_string"@)
    } else {
        None
    }
}

/// What the wizard makes of an entered connection string.
#[derive(Debug, Clone, PartialEq)]
pub enum ConnectionStringInput {
    Empty,
    /// It lacks the endpoint, the key name or the key.
    InvalidFormat,
    /// The string, trimmed.
    Valid(String),
}

/// Both views of the wizard's check of a connection string.
pub open spec fn connection_string_input_ok(input: Seq<char>, r: ConnectionStringInput) -> bool {
    let t = trim(input);
    if t.len() == 0 {
        r is Empty
    } else if !contains(t, "Endpoint=sb://"@) || !contains(t, "SharedAccessKeyName="@) || !contains(
        t,
        "SharedAccessKey="@,
    ) {
        r is InvalidFormat
    } else {
        r matches ConnectionStringInput::Valid(s) && s@ == t
    }
}

/// The `.env` content for a profile with the given method: secrets and
/// authentication only, with the other options as comments.
pub open spec fn env_content(auth_method: Seq<char>, connection_string: Option<Seq<char>>) -> Seq<char> {
    let head = "# Environment variables for default profile\n"@ + "# SECRETS AND AUTHENTICATION ONLY\n"@
        + "# For other settings, create config.toml or keys.toml in this directory\n\n"@;
    let auth = if auth_method == "connection_string"@ {
        "# Connection string authentication\n"@ + match connection_string {
            Some(c) => "SERVICEBUS__CONNECTION_STRING="@ + c + "\n\n"@,
            None => "# SERVICEBUS__CONNECTION_STRING=your-connection-string\n\n"@,
        }
    } else {
        let flow = if auth_method == "device_code"@ {
            "# Device code flow - no additional credentials needed\n"@
                + "# The app will prompt you to sign in interactively\n\n"@
        } else if auth_method == "client_secret"@ {
            "# Client secret flow - add your Azure AD credentials:\n"@
                + "# AZURE_AD__TENANT_ID=your-tenant-id\n"@ + "# AZURE_AD__CLIENT_ID=your-client-id\n"@
                + "# AZURE_AD__CLIENT_SECRET=your-client-secret\n\n"@
        } else {
            Seq::<char>::empty()
        };
        "# Authentication method: "@ + auth_method + "\n"@ + "AZURE_AD__AUTH_METHOD="@
            + auth_method + "\n\n"@ + flow
            + "# Alternative: Service Bus connection string (if switching to connection string auth):\n"@
            + "# SERVICEBUS__CONNECTION_STRING=your-connection-string\n"@
    };
    head + auth + "# SERVICEBUS__ENCRYPTED_CONNECTION_STRING=your-encrypted-connection-string\n"@
        + "# SERVICEBUS__ENCRYPTION_SALT=your-encryption-salt\n\n"@
        + "# Optional: Azure resource information (if not auto-discovered)\n"@
        + "# AZURE_AD__SUBSCRIPTION_ID=your-subscription-id\n"@
        + "# AZURE_AD__RESOURCE_GROUP=your-resource-group\n"@
        + "# AZURE_AD__NAMESPACE=your-servicebus-namespace\n"@
}

impl SetupWizard {
    /// The `.env` content for the method and, for connection string
    /// authentication, the connection string; it never fails.
    pub fn generate_env_content(auth_method: &str, connection_string: Option<&str>) -> (r: Result<
        String,
        String,
    >)
        ensures
            r matches Ok(s) && s@ == env_content(
                auth_method@,
                match connection_string {
                    Some(c) => Some(c@),
                    None => None,
                },
            ),
    {
        let mut env = String::new();
        env.append("# Environment variables for default profile\n");
        env.append("# SECRETS AND AUTHENTICATION ONLY\n");
        env.append("# For other settings, create config.toml or keys.toml in this directory\n\n");
        if crate::text::str_eq(auth_method, "connection_string") {
            env.append("# Connection string authentication\n");
            match connection_string {
                Some(conn_str) => {
                    env.append("SERVICEBUS__CONNECTION_STRING=");
                    env.append(conn_str);
                    env.append("\n\n");
                },
                None => {
                    env.append("# SERVICEBUS__CONNECTION_STRING=your-connection-string\n\n");
                },
            }
        } else {
            env.append("# Authentication method: ");
            env.append(auth_method);
            env.append("\n");
            env.append("AZURE_AD__AUTH_METHOD=");
            env.append(auth_method);
            env.append("\n\n");
            if crate::text::str_eq(auth_method, "device_code") {
                env.append("# Device code flow - no additional credentials needed\n");
                env.append("# The app will prompt you to sign in interactively\n\n");
            } else if crate::text::str_eq(auth_method, "client_secret") {
                env.append("# Client secret flow - add your Azure AD credentials:\n");
                env.append("# AZURE_AD__TENANT_ID=your-tenant-id\n");
                env.append("# AZURE_AD__CLIENT_ID=your-client-id\n");
                env.append("# AZURE_AD__CLIENT_SECRET=your-client-secret\n\n");
            }
            env.append(
                "# Alternative: Service Bus connection string (if switching to connection string auth):\n",
            );
            env.append("# SERVICEBUS__CONNECTION_STRING=your-connection-string\n");
        }
        env.append("# SERVICEBUS__ENCRYPTED_CONNECTION_STRING=your-encrypted-connection-string\n");
        env.append("# SERVICEBUS__ENCRYPTION_SALT=your-encryption-salt\n\n");
        env.append("# Optional: Azure resource information (if not auto-discovered)\n");
        env.append("# AZURE_AD__SUBSCRIPTION_ID=your-subscription-id\n");
        env.append("# AZURE_AD__RESOURCE_GROUP=your-resource-group\n");
        env.append("# AZURE_AD__NAMESPACE=your-servicebus-namespace\n");
        proof {
            assert(env@ =~= env_content(
                auth_method@,
                match connection_string {
                    Some(c) => Some(c@),
                    None => None,
                },
            ));
        }
        Ok(env)
    }

    /// The authentication method of an answer to the menu, if it is one of
    /// the options.
    pub fn parse_auth_choice(input: &str) -> (r: Option<&'static str>)
        ensures
            match auth_choice(input@) {
                Some(m) => r matches Some(s) && s@ == m,
                None => r is None,
            },
    {
        let t = str_trim(input);
        if crate::text::str_eq(t, "1") {
            Some("device_code")
        } else if crate::text::str_eq(t, "2") {
            Some("client_secret")
        } else if crate::text::str_eq(t, "3") {
            Some("connection_string")
        } else {
            None
        }
    }

    /// Checks an entered connection string: not blank, and naming the
    /// endpoint, the key name and the key.
    pub fn check_connection_string(input: &str) -> (r: ConnectionStringInput)
        ensures
            connection_string_input_ok(input@, r),
    {
        let t = str_trim(input);
        if t.is_empty() {
            return ConnectionStringInput::Empty;
        }
        if !str_contains(t, "Endpoint=sb://") || !str_contains(t, "SharedAccessKeyName=")
            || !str_contains(t, "SharedAccessKey=") {
            return ConnectionStringInput::InvalidFormat;
        }
        ConnectionStringInput::Valid(owned(t))
    }

    /// Whether an answer to "update the existing profile?" is yes: once
    /// trimmed and lower-cased, it starts with `y`.
    pub fn confirms_update(input: &str) -> (r: bool)
        ensures
            r == starts_with(spec_lowercase(trim(input@)), "y"@),
    {
        let t = str_trim(input);
        let lower = lowercase_text(t);
        str_starts_with(lower.as_str(), "y")
    }

    /// Checks the profile name before anything is written; a refused name is
    /// reported with its reason.
    pub fn check_profile_name(profile_name: &str) -> (r: Result<(), String>)
        ensures
            profile_name_outcome(profile_name@) is Ok ==> r is Ok,
            profile_name_outcome(profile_name@) matches Err(e) ==> r matches Err(m) && m@
                == "Invalid profile name: "@ + e,
    {
        match validate_profile_name(profile_name) {
            Ok(()) => Ok(()),
            Err(e) => {
                let mut m = owned("Invalid profile name: ");
                m.append(e.as_str());
                Err(m)
            },
        }
    }

    /// The notes printed once the profile is saved, for its method.
    pub fn completion_notes(auth_method: &str) -> (r: Vec<&'static str>)
        ensures
            auth_method@ == "client_secret"@ ==> r@.map_values(|s: &str| s@) == seq![
                "\n⚠️  Important: Add your Azure AD credentials to the .env file:"@,
                "   AZURE_AD__TENANT_ID=your-tenant-id"@,
                "   AZURE_AD__CLIENT_ID=your-client-id"@,
                "   AZURE_AD__CLIENT_SECRET=your-client-secret"@,
            ],
            auth_method@ == "device_code"@ ==> r@.map_values(|s: &str| s@) == seq![
                "\n📝 Note: Device code authentication will prompt you to sign in when you start the app."@,
            ],
            auth_method@ == "connection_string"@ ==> r@.map_values(|s: &str| s@) == seq![
                "\n✨ Connection string configured successfully!"@,
                "🔗 Your Service Bus connection is ready to use."@,
                "💡 No additional authentication setup required."@,
            ],
            auth_method@ != "client_secret"@ && auth_method@ != "device_code"@ && auth_method@
                != "connection_string"@ ==> r@.len() == 0,
    {
        proof {
            reveal_strlit("client_secret");
            reveal_strlit("device_code");
            reveal_strlit("connection_string");
            assert("device_code"@.len() == 11);
            assert("client_secret"@.len() == 13);
            assert("connection_string"@.len() == 17);
            assert("device_code"@ != "client_secret"@);
            assert("connection_string"@ != "client_secret"@);
            assert("connection_string"@ != "device_code"@);
        }
        let r = if crate::text::str_eq(auth_method, "client_secret") {
            vec![
                "\n⚠️  Important: Add your Azure AD credentials to the .env file:",
                "   AZURE_AD__TENANT_ID=your-tenant-id",
                "   AZURE_AD__CLIENT_ID=your-client-id",
                "   AZURE_AD__CLIENT_SECRET=your-client-secret",
            ]
        } else if crate::text::str_eq(auth_method, "device_code") {
            vec![
                "\n📝 Note: Device code authentication will prompt you to sign in when you start the app.",
            ]
        } else if crate::text::str_eq(auth_method, "connection_string") {
            vec![
                "\n✨ Connection string configured successfully!",
                "🔗 Your Service Bus connection is ready to use.",
                "💡 No additional authentication setup required.",
            ]
        } else {
            Vec::new()
        };
        proof {
            if auth_method@ == "client_secret"@ {
                assert(r@.map_values(|s: &str| s@) =~= seq![
                    "\n⚠️  Important: Add your Azure AD credentials to the .env file:"@,
                    "   AZURE_AD__TENANT_ID=your-tenant-id"@,
                    "   AZURE_AD__CLIENT_ID=your-client-id"@,
                    "   AZURE_AD__CLIENT_SECRET=your-client-secret"@,
                ]);
            } else if auth_method@ == "device_code"@ {
                assert(r@.map_values(|s: &str| s@) =~= seq![
                    "\n📝 Note: Device code authentication will prompt you to sign in when you start the app."@,
                ]);
            } else if auth_method@ == "connection_string"@ {
                assert(r@.map_values(|s: &str| s@) =~= seq![
                    "\n✨ Connection string configured successfully!"@,
                    "🔗 Your Service Bus connection is ready to use."@,
                    "💡 No additional authentication setup required."@,
                ]);
            }
        }
        r
    }
}

} // verus!
