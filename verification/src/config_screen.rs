//! The configuration screen: a form of authentication settings, edited field
//! by field and validated before it is saved.
use vstd::prelude::*;
use crate::common::{ConfigActivityMsg, ConfigUpdateData, Msg};
use crate::help::{bar_span_views, bar_spans, bar_views, separated_bar, BarSpanKind};
use crate::input::{KeyCode, KeyInput};
use crate::text::{
    byte_len, concat3, contains, is_blank, is_blank_str, owned, repeat, repeat_char, str_byte_len,
    str_contains, str_eq, str_trim, string_pop, string_push, trim,
};

verus! {

/// Shown in place of a connection string that is stored encrypted.
pub const PLACEHOLDER_ENCRYPTED_CONNECTION_STRING: &'static str =
    "<<encrypted-connection-string-present>>";

/// Shown in place of a client secret that is stored encrypted.
pub const PLACEHOLDER_ENCRYPTED_CLIENT_SECRET: &'static str = "<<encrypted-client-secret-present>>";

/// Longest input accepted in a field, in bytes.
pub const MAX_INPUT_LENGTH: usize = 512;

/// Longest run of mask characters shown for a secret.
pub const PASSWORD_DISPLAY_LENGTH: usize = 20;

/// The placeholder of an encrypted connection string.
pub open spec fn connection_placeholder() -> Seq<char> {
    "<<encrypted-connection-string-present>>"@
}

/// The placeholder of an encrypted client secret.
pub open spec fn secret_placeholder() -> Seq<char> {
    "<<encrypted-client-secret-present>>"@
}

/// The values of the form.
#[derive(Debug, Clone)]
pub struct ConfigFormData {
    pub auth_method: String,
    pub tenant_id: String,
    pub client_id: String,
    pub client_secret: String,
    pub subscription_id: String,
    pub resource_group: String,
    pub namespace: String,
    pub connection_string: String,
    pub master_password: String,
    pub queue_name: String,
}

impl Default for ConfigFormData {
    /// Connection string authentication, every field empty.
    fn default() -> (r: Self)
        ensures
            r.auth_method@ == "connection_string"@,
            r.tenant_id@.len() == 0,
            r.client_id@.len() == 0,
            r.client_secret@.len() == 0,
            r.subscription_id@.len() == 0,
            r.resource_group@.len() == 0,
            r.namespace@.len() == 0,
            r.connection_string@.len() == 0,
            r.master_password@.len() == 0,
            r.queue_name@.len() == 0,
    {
        ConfigFormData {
            auth_method: owned("connection_string"),
            tenant_id: String::new(),
            client_id: String::new(),
            client_secret: String::new(),
            subscription_id: String::new(),
            resource_group: String::new(),
            namespace: String::new(),
            connection_string: String::new(),
            master_password: String::new(),
            queue_name: String::new(),
        }
    }
}

/// The settings the form starts from, as the environment provides them.
#[derive(Debug, Clone)]
pub struct ConfigEnvValues {
    pub tenant_id: Option<String>,
    pub client_id: Option<String>,
    pub client_secret: Option<String>,
    pub encrypted_client_secret_present: bool,
    pub subscription_id: Option<String>,
    pub resource_group: Option<String>,
    pub namespace: Option<String>,
    pub queue_name: Option<String>,
}

/// What the screen needs to know beyond its own state to react to a key.
pub struct ConfigScreenContext {
    /// The loaded configuration holds an encrypted connection string.
    pub has_encrypted_connection: bool,
    /// The connection string parser's objection to the trimmed connection
    /// string of the form, if it has one.
    pub connection_string_problem: Option<String>,
    /// The form as loaded afresh from the configuration, used when the user
    /// asks to reload.
    pub reloaded_form: ConfigFormData,
}

/// The text of an optional environment value, empty when unset.
pub open spec fn or_empty(o: Option<String>) -> Seq<char> {
    match o {
        Some(s) => s@,
        None => Seq::empty(),
    }
}

fn take_or_empty(o: Option<String>) -> (r: String)
    ensures
        r@ == or_empty(o),
{
    match o {
        Some(s) => s,
        None => String::new(),
    }
}

/// The text of a form value as handed over: absent when blank.
pub open spec fn optional_text(value: Seq<char>) -> Option<Seq<char>> {
    if is_blank(value) {
        None
    } else {
        Some(value)
    }
}

/// The text of an optional string.
pub open spec fn opt_text(o: Option<String>) -> Option<Seq<char>> {
    match o {
        Some(s) => Some(s@),
        None => None,
    }
}

/// `d` carries the form's values: the method as is, the other fields absent
/// when blank.
pub open spec fn update_data_of(d: ConfigUpdateData, f: ConfigFormData) -> bool {
    &&& d.auth_method@ == f.auth_method@
    &&& opt_text(d.tenant_id) == optional_text(f.tenant_id@)
    &&& opt_text(d.client_id) == optional_text(f.client_id@)
    &&& opt_text(d.client_secret) == optional_text(f.client_secret@)
    &&& opt_text(d.subscription_id) == optional_text(f.subscription_id@)
    &&& opt_text(d.resource_group) == optional_text(f.resource_group@)
    &&& opt_text(d.namespace) == optional_text(f.namespace@)
    &&& opt_text(d.connection_string) == optional_text(f.connection_string@)
    &&& opt_text(d.master_password) == optional_text(f.master_password@)
    &&& opt_text(d.queue_name) == optional_text(f.queue_name@)
}

/// The authentication methods the form cycles through, with their
/// descriptions.
pub open spec fn auth_methods() -> Seq<(Seq<char>, Seq<char>)> {
    seq![
        ("connection_string"@, "Service Bus Connection String"@),
        ("device_code"@, "Azure AD Device Code Flow"@),
        ("client_secret"@, "Azure AD Client Secret Flow"@),
    ]
}

/// The fields the form shows for an authentication method: name, label, and
/// whether the field is required.
pub open spec fn fields_for(method: Seq<char>, unlock: bool) -> Seq<(Seq<char>, Seq<char>, bool)> {
    if method == "connection_string"@ {
        seq![
            ("connection_string"@, "Connection String"@, !unlock),
            ("master_password"@, "Master Password"@, true),
            ("queue_name"@, "Queue Name"@, false),
        ]
    } else if method == "device_code"@ {
        seq![
            ("tenant_id"@, "Tenant ID"@, true),
            ("client_id"@, "Client ID"@, true),
            ("subscription_id"@, "Subscription ID"@, false),
            ("resource_group"@, "Resource Group"@, false),
            ("namespace"@, "Namespace"@, false),
        ]
    } else if method == "client_secret"@ {
        seq![
            ("tenant_id"@, "Tenant ID"@, true),
            ("client_id"@, "Client ID"@, true),
            ("client_secret"@, "Client Secret"@, true),
            ("master_password"@, "Master Password"@, true),
            ("subscription_id"@, "Subscription ID"@, false),
            ("resource_group"@, "Resource Group"@, false),
            ("namespace"@, "Namespace"@, false),
        ]
    } else {
        Seq::empty()
    }
}

/// The value of the form field called `name`; empty for an unknown name.
pub open spec fn field_value(f: ConfigFormData, name: Seq<char>) -> Seq<char> {
    if name == "auth_method"@ {
        f.auth_method@
    } else if name == "tenant_id"@ {
        f.tenant_id@
    } else if name == "client_id"@ {
        f.client_id@
    } else if name == "client_secret"@ {
        f.client_secret@
    } else if name == "subscription_id"@ {
        f.subscription_id@
    } else if name == "resource_group"@ {
        f.resource_group@
    } else if name == "namespace"@ {
        f.namespace@
    } else if name == "connection_string"@ {
        f.connection_string@
    } else if name == "master_password"@ {
        f.master_password@
    } else if name == "queue_name"@ {
        f.queue_name@
    } else {
        Seq::empty()
    }
}

/// The position of the field called `name` in the form, `-1` for an unknown
/// name.
pub open spec fn field_index(name: Seq<char>) -> int {
    if name == "auth_method"@ {
        0
    } else if name == "tenant_id"@ {
        1
    } else if name == "client_id"@ {
        2
    } else if name == "client_secret"@ {
        3
    } else if name == "subscription_id"@ {
        4
    } else if name == "resource_group"@ {
        5
    } else if name == "namespace"@ {
        6
    } else if name == "connection_string"@ {
        7
    } else if name == "master_password"@ {
        8
    } else if name == "queue_name"@ {
        9
    } else {
        -1
    }
}

/// `g` is the form `f` with the field called `name` set to `value`; `f`
/// itself for an unknown name.
pub open spec fn form_with(f: ConfigFormData, g: ConfigFormData, name: Seq<char>, value: Seq<char>) -> bool {
    let k = field_index(name);
    &&& g.auth_method@ == (if k == 0 { value } else { f.auth_method@ })
    &&& g.tenant_id@ == (if k == 1 { value } else { f.tenant_id@ })
    &&& g.client_id@ == (if k == 2 { value } else { f.client_id@ })
    &&& g.client_secret@ == (if k == 3 { value } else { f.client_secret@ })
    &&& g.subscription_id@ == (if k == 4 { value } else { f.subscription_id@ })
    &&& g.resource_group@ == (if k == 5 { value } else { f.resource_group@ })
    &&& g.namespace@ == (if k == 6 { value } else { f.namespace@ })
    &&& g.connection_string@ == (if k == 7 { value } else { f.connection_string@ })
    &&& g.master_password@ == (if k == 8 { value } else { f.master_password@ })
    &&& g.queue_name@ == (if k == 9 { value } else { f.queue_name@ })
}

/// Encrypted data is already stored for the chosen method, so only the
/// password is needed.
pub open spec fn unlock_mode(f: ConfigFormData) -> bool {
    ||| f.auth_method@ == "connection_string"@ && contains(
        f.connection_string@,
        connection_placeholder(),
    )
    ||| f.auth_method@ == "client_secret"@ && contains(f.client_secret@, secret_placeholder())
}

/// The problems of a form, in the order they are listed.
/// `require_password` asks for the password even when encrypted data is only
/// being kept.
pub open spec fn form_errors(
    f: ConfigFormData,
    require_password: bool,
    has_encrypted_connection: bool,
    connection_string_problem: Option<Seq<char>>,
) -> Seq<Seq<char>> {
    let m = f.auth_method@;
    if m == "connection_string"@ {
        let cs = trim(f.connection_string@);
        if has_encrypted_connection && (cs.len() == 0 || contains(cs, connection_placeholder())) {
            if require_password && is_blank(f.master_password@) {
                seq!["Master password is required to access existing connection string"@]
            } else {
                Seq::empty()
            }
        } else if cs.len() == 0 {
            seq!["Connection string is required for connection_string auth method"@]
        } else {
            (match connection_string_problem {
                Some(p) => seq!["Invalid connection string: "@ + p],
                None => Seq::empty(),
            }) + (if is_blank(f.master_password@) {
                seq!["Master password is required for connection string encryption"@]
            } else {
                Seq::empty()
            })
        }
    } else if m == "device_code"@ {
        (if is_blank(f.tenant_id@) {
            seq!["Tenant ID is required for device code flow"@]
        } else {
            Seq::empty()
        }) + (if is_blank(f.client_id@) {
            seq!["Client ID is required for device code flow"@]
        } else {
            Seq::empty()
        })
    } else if m == "client_secret"@ {
        (if is_blank(f.tenant_id@) {
            seq!["Tenant ID is required for client secret flow"@]
        } else {
            Seq::empty()
        }) + (if is_blank(f.client_id@) {
            seq!["Client ID is required for client secret flow"@]
        } else {
            Seq::empty()
        }) + (if is_blank(f.client_secret@) {
            seq!["Client Secret is required for client secret flow"@]
        } else if !contains(f.client_secret@, secret_placeholder()) && is_blank(
            f.master_password@,
        ) {
            seq!["Master password is required to encrypt the client secret"@]
        } else {
            Seq::empty()
        })
    } else {
        seq!["Invalid authentication method selected"@]
    }
}

/// The texts of a list of strings.
pub open spec fn texts(v: Seq<String>) -> Seq<Seq<char>> {
    v.map_values(|s: String| s@)
}

/// The configuration form with its editing state.
pub struct ConfigScreen {
    pub form_data: ConfigFormData,
    pub selected_field: usize,
    pub validation_errors: Vec<String>,
    pub editing_mode: bool,
    pub current_input: String,
}

impl ConfigScreen {
    /// The names of the entries of the list: the method, then its fields.
    pub open spec fn item_names(&self) -> Seq<Seq<char>> {
        seq!["auth_method"@] + fields_for(
            self.form_data.auth_method@,
            unlock_mode(self.form_data),
        ).map_values(|t: (Seq<char>, Seq<char>, bool)| t.0)
    }

    /// The screen with other editing state and form unchanged.
    pub open spec fn same_form(&self, other: &Self) -> bool {
        self.form_data == other.form_data
    }

    /// The form the environment describes, showing a placeholder for
    /// encrypted data instead of the data itself and never a password.
    pub fn load_current_config(
        has_encrypted_connection: bool,
        auth_method: &str,
        env: ConfigEnvValues,
    ) -> (r: ConfigFormData)
        ensures
            r.auth_method@ == auth_method@,
            r.tenant_id@ == or_empty(env.tenant_id),
            r.client_id@ == or_empty(env.client_id),
            r.client_secret@ == (if env.encrypted_client_secret_present {
                secret_placeholder()
            } else {
                or_empty(env.client_secret)
            }),
            r.subscription_id@ == or_empty(env.subscription_id),
            r.resource_group@ == or_empty(env.resource_group),
            r.namespace@ == or_empty(env.namespace),
            r.connection_string@ == (if has_encrypted_connection {
                connection_placeholder()
            } else {
                Seq::empty()
            }),
            r.master_password@.len() == 0,
            r.queue_name@ == or_empty(env.queue_name),
    {
        let connection_string = if has_encrypted_connection {
            owned(PLACEHOLDER_ENCRYPTED_CONNECTION_STRING)
        } else {
            String::new()
        };
        let client_secret = if env.encrypted_client_secret_present {
            owned(PLACEHOLDER_ENCRYPTED_CLIENT_SECRET)
        } else {
            take_or_empty(env.client_secret)
        };
        ConfigFormData {
            auth_method: owned(auth_method),
            tenant_id: take_or_empty(env.tenant_id),
            client_id: take_or_empty(env.client_id),
            client_secret,
            subscription_id: take_or_empty(env.subscription_id),
            resource_group: take_or_empty(env.resource_group),
            namespace: take_or_empty(env.namespace),
            connection_string,
            master_password: String::new(),
            queue_name: take_or_empty(env.queue_name),
        }
    }

    /// A screen showing `form_data`, first entry highlighted, not editing.
    pub fn new(form_data: ConfigFormData) -> (r: Self)
        ensures
            r.form_data == form_data,
            r.selected_field == 0,
            r.validation_errors@.len() == 0,
            !r.editing_mode,
            r.current_input@.len() == 0,
    {
        ConfigScreen {
            form_data,
            selected_field: 0,
            validation_errors: Vec::new(),
            editing_mode: false,
            current_input: String::new(),
        }
    }

    /// The value as handed over: absent when blank.
    pub fn string_to_option(value: &str) -> (r: Option<String>)
        ensures
            opt_text(r) == optional_text(value@),
    {
        if is_blank_str(value) {
            None
        } else {
            Some(owned(value))
        }
    }

    /// Whether encrypted data is stored for the chosen method.
    pub fn is_unlock_mode(&self) -> (r: bool)
        ensures
            r == unlock_mode(self.form_data),
    {
        (str_eq(self.form_data.auth_method.as_str(), "connection_string") && str_contains(
            self.form_data.connection_string.as_str(),
            PLACEHOLDER_ENCRYPTED_CONNECTION_STRING,
        )) || (str_eq(self.form_data.auth_method.as_str(), "client_secret") && str_contains(
            self.form_data.client_secret.as_str(),
            PLACEHOLDER_ENCRYPTED_CLIENT_SECRET,
        ))
    }

    /// The authentication methods with their descriptions.
    pub fn get_auth_methods() -> (r: Vec<(&'static str, &'static str)>)
        ensures
            r@.map_values(|p: (&str, &str)| (p.0@, p.1@)) == auth_methods(),
    {
        let mut v: Vec<(&'static str, &'static str)> = Vec::new();
        v.push(("connection_string", "Service Bus Connection String"));
        v.push(("device_code", "Azure AD Device Code Flow"));
        v.push(("client_secret", "Azure AD Client Secret Flow"));
        assert(v@.map_values(|p: (&str, &str)| (p.0@, p.1@)) =~= auth_methods());
        v
    }

    /// The fields of the chosen method.
    pub fn get_fields_for_auth_method(&self) -> (r: Vec<(&'static str, &'static str, bool)>)
        ensures
            r@.map_values(|t: (&str, &str, bool)| (t.0@, t.1@, t.2)) == fields_for(
                self.form_data.auth_method@,
                unlock_mode(self.form_data),
            ),
    {
        let method = self.form_data.auth_method.as_str();
        let mut v: Vec<(&'static str, &'static str, bool)> = Vec::new();
        if str_eq(method, "connection_string") {
            let required = !self.is_unlock_mode();
            v.push(("connection_string", "Connection String", required));
            v.push(("master_password", "Master Password", true));
            v.push(("queue_name", "Queue Name", false));
        } else if str_eq(method, "device_code") {
            v.push(("tenant_id", "Tenant ID", true));
            v.push(("client_id", "Client ID", true));
            v.push(("subscription_id", "Subscription ID", false));
            v.push(("resource_group", "Resource Group", false));
            v.push(("namespace", "Namespace", false));
        } else if str_eq(method, "client_secret") {
            v.push(("tenant_id", "Tenant ID", true));
            v.push(("client_id", "Client ID", true));
            v.push(("client_secret", "Client Secret", true));
            v.push(("master_password", "Master Password", true));
            v.push(("subscription_id", "Subscription ID", false));
            v.push(("resource_group", "Resource Group", false));
            v.push(("namespace", "Namespace", false));
        }
        assert(v@.map_values(|t: (&str, &str, bool)| (t.0@, t.1@, t.2)) =~= fields_for(
            self.form_data.auth_method@,
            unlock_mode(self.form_data),
        ));
        v
    }

    /// The value of the field called `field`.
    pub fn get_field_value(&self, field: &str) -> (r: &str)
        ensures
            r@ == field_value(self.form_data, field@),
    {
        let f = &self.form_data;
        if str_eq(field, "auth_method") {
            f.auth_method.as_str()
        } else if str_eq(field, "tenant_id") {
            f.tenant_id.as_str()
        } else if str_eq(field, "client_id") {
            f.client_id.as_str()
        } else if str_eq(field, "client_secret") {
            f.client_secret.as_str()
        } else if str_eq(field, "subscription_id") {
            f.subscription_id.as_str()
        } else if str_eq(field, "resource_group") {
            f.resource_group.as_str()
        } else if str_eq(field, "namespace") {
            f.namespace.as_str()
        } else if str_eq(field, "connection_string") {
            f.connection_string.as_str()
        } else if str_eq(field, "master_password") {
            f.master_password.as_str()
        } else if str_eq(field, "queue_name") {
            f.queue_name.as_str()
        } else {
            proof {
                reveal_strlit("");
            }
            ""
        }
    }

    /// Sets the field called `field`; an unknown name changes nothing.
    pub fn set_field_value(&mut self, field: &str, value: String)
        ensures
            form_with(old(self).form_data, final(self).form_data, field@, value@),
            final(self).selected_field == old(self).selected_field,
            final(self).validation_errors == old(self).validation_errors,
            final(self).editing_mode == old(self).editing_mode,
            final(self).current_input == old(self).current_input,
    {
        if str_eq(field, "auth_method") {
            self.form_data.auth_method = value;
        } else if str_eq(field, "tenant_id") {
            self.form_data.tenant_id = value;
        } else if str_eq(field, "client_id") {
            self.form_data.client_id = value;
        } else if str_eq(field, "client_secret") {
            self.form_data.client_secret = value;
        } else if str_eq(field, "subscription_id") {
            self.form_data.subscription_id = value;
        } else if str_eq(field, "resource_group") {
            self.form_data.resource_group = value;
        } else if str_eq(field, "namespace") {
            self.form_data.namespace = value;
        } else if str_eq(field, "connection_string") {
            self.form_data.connection_string = value;
        } else if str_eq(field, "master_password") {
            self.form_data.master_password = value;
        } else if str_eq(field, "queue_name") {
            self.form_data.queue_name = value;
        }
    }

    /// The problems of the form; see [`form_errors`].
    pub fn validate_config_internal(
        &self,
        require_password_for_encrypted: bool,
        has_encrypted_connection: bool,
        connection_string_problem: &Option<String>,
    ) -> (r: Vec<String>)
        ensures
            texts(r@) == form_errors(
                self.form_data,
                require_password_for_encrypted,
                has_encrypted_connection,
                opt_text(*connection_string_problem),
            ),
    {
        let f = &self.form_data;
        let method = f.auth_method.as_str();
        let mut errors: Vec<String> = Vec::new();
        if str_eq(method, "connection_string") {
            let connection_string = str_trim(f.connection_string.as_str());
            if has_encrypted_connection && (connection_string.is_empty() || str_contains(
                connection_string,
                PLACEHOLDER_ENCRYPTED_CONNECTION_STRING,
            )) {
                if require_password_for_encrypted && is_blank_str(f.master_password.as_str()) {
                    errors.push(
                        owned("Master password is required to access existing connection string"),
                    );
                }
            } else if connection_string.is_empty() {
                errors.push(
                    owned("Connection string is required for connection_string auth method"),
                );
            } else {
                if let Some(problem) = connection_string_problem {
                    let mut e = owned("Invalid connection string: ");
                    e.append(problem.as_str());
                    errors.push(e);
                }
                if is_blank_str(f.master_password.as_str()) {
                    errors.push(
                        owned("Master password is required for connection string encryption"),
                    );
                }
            }
        } else if str_eq(method, "device_code") {
            if is_blank_str(f.tenant_id.as_str()) {
                errors.push(owned("Tenant ID is required for device code flow"));
            }
            if is_blank_str(f.client_id.as_str()) {
                errors.push(owned("Client ID is required for device code flow"));
            }
        } else if str_eq(method, "client_secret") {
            if is_blank_str(f.tenant_id.as_str()) {
                errors.push(owned("Tenant ID is required for client secret flow"));
            }
            if is_blank_str(f.client_id.as_str()) {
                errors.push(owned("Client ID is required for client secret flow"));
            }
            if is_blank_str(f.client_secret.as_str()) {
                errors.push(owned("Client Secret is required for client secret flow"));
            } else if !str_contains(f.client_secret.as_str(), PLACEHOLDER_ENCRYPTED_CLIENT_SECRET) {
                if is_blank_str(f.master_password.as_str()) {
                    errors.push(owned("Master password is required to encrypt the client secret"));
                }
            }
        } else {
            errors.push(owned("Invalid authentication method selected"));
        }
        proof {
            crate::text::lemma_trim_empty_iff_blank(f.connection_string@);
        }
        assert(texts(errors@) =~= form_errors(
            self.form_data,
            require_password_for_encrypted,
            has_encrypted_connection,
            opt_text(*connection_string_problem),
        ));
        errors
    }

    /// The form's values as handed over for saving.
    pub fn to_config_update_data(&self) -> (r: ConfigUpdateData)
        ensures
            update_data_of(r, self.form_data),
    {
        let f = &self.form_data;
        ConfigUpdateData {
            auth_method: owned(f.auth_method.as_str()),
            tenant_id: Self::string_to_option(f.tenant_id.as_str()),
            client_id: Self::string_to_option(f.client_id.as_str()),
            client_secret: Self::string_to_option(f.client_secret.as_str()),
            subscription_id: Self::string_to_option(f.subscription_id.as_str()),
            resource_group: Self::string_to_option(f.resource_group.as_str()),
            namespace: Self::string_to_option(f.namespace.as_str()),
            connection_string: Self::string_to_option(f.connection_string.as_str()),
            master_password: Self::string_to_option(f.master_password.as_str()),
            queue_name: Self::string_to_option(f.queue_name.as_str()),
        }
    }

    /// The screen as typing `c` leaves it: appended to the input while
    /// editing, unless the input already holds the maximum length.
    pub open spec fn typed(&self, next: &Self, c: char, r: Option<Msg>) -> bool {
        if self.editing_mode {
            &&& next.form_data == self.form_data
            &&& next.selected_field == self.selected_field
            &&& next.validation_errors == self.validation_errors
            &&& next.editing_mode
            &&& next.current_input@ == (if (byte_len(self.current_input@) as usize) < MAX_INPUT_LENGTH {
                self.current_input@.push(c)
            } else {
                self.current_input@
            })
            &&& r == Some(Msg::ForceRedraw)
        } else {
            *next == *self && r is None
        }
    }

    /// The screen after saving was asked for: the validation errors are
    /// recorded, and the form is handed over when there are none.
    pub open spec fn saved(
        &self,
        next: &Self,
        require_password: bool,
        ctx: &ConfigScreenContext,
        r: Option<Msg>,
    ) -> bool {
        let errs = form_errors(
            self.form_data,
            require_password,
            ctx.has_encrypted_connection,
            opt_text(ctx.connection_string_problem),
        );
        &&& next.form_data == self.form_data
        &&& next.selected_field == self.selected_field
        &&& next.editing_mode == self.editing_mode
        &&& next.current_input == self.current_input
        &&& texts(next.validation_errors@) == errs
        &&& if errs.len() == 0 {
            if require_password {
                r matches Some(Msg::ConfigActivity(ConfigActivityMsg::Save(d))) && update_data_of(
                    d,
                    self.form_data,
                )
            } else {
                r matches Some(Msg::ConfigActivity(ConfigActivityMsg::ConfirmAndProceed(d)))
                    && update_data_of(d, self.form_data)
            }
        } else {
            r is None
        }
    }

    /// Reacts to a key. Esc cancels the edit, or the screen; `s` saves for
    /// the next start and Ctrl+S saves and logs in, each after validation;
    /// the arrows move between entries; Enter edits the highlighted field,
    /// confirms an edit, or cycles the authentication method; Ctrl+C reloads
    /// the form; while editing, other characters are typed and Backspace
    /// erases.
    pub fn on(&mut self, key: KeyInput, ctx: &ConfigScreenContext) -> (r: Option<Msg>)
        ensures
            key.code == KeyCode::Esc ==> if old(self).editing_mode {
                &&& final(self).form_data == old(self).form_data
                &&& final(self).selected_field == old(self).selected_field
                &&& final(self).validation_errors == old(self).validation_errors
                &&& !final(self).editing_mode
                &&& final(self).current_input@.len() == 0
                &&& r == Some(Msg::SetEditingMode(false))
            } else {
                *final(self) == *old(self) && r == Some(Msg::ConfigActivity(ConfigActivityMsg::Cancel))
            },
            key.code == KeyCode::Char('s') && key.modifiers.is_none() ==> if old(self).editing_mode {
                old(self).typed(final(self), 's', r)
            } else {
                old(self).saved(final(self), true, ctx, r)
            },
            key.code == KeyCode::Char('s') && key.modifiers.is_control_only() ==> old(self).saved(
                final(self),
                false,
                ctx,
                r,
            ),
            key.code == KeyCode::Tab ==> *final(self) == *old(self) && r is None,
            (key.code == KeyCode::Left || key.code == KeyCode::Right || (old(self).editing_mode && (
            key.code == KeyCode::Up || key.code == KeyCode::Down))) ==> *final(self) == *old(self)
                && r is None,
            key.code == KeyCode::Up && !old(self).editing_mode ==> final(self).selected_field == (
            if old(self).selected_field > 0 {
                old(self).selected_field - 1
            } else {
                old(self).selected_field as int
            }) && final(self).form_data == old(self).form_data && final(self).editing_mode == old(
                self).editing_mode && final(self).current_input == old(self).current_input && final(
                self).validation_errors == old(self).validation_errors && r == Some(Msg::ForceRedraw),
            key.code == KeyCode::Down && !old(self).editing_mode ==> final(self).selected_field == (
            if old(self).selected_field + 1 < old(self).item_names().len() {
                old(self).selected_field + 1
            } else {
                old(self).selected_field as int
            }) && final(self).form_data == old(self).form_data && final(self).editing_mode == old(
                self).editing_mode && final(self).current_input == old(self).current_input && final(
                self).validation_errors == old(self).validation_errors && r == Some(Msg::ForceRedraw),
            key.code == KeyCode::Enter && old(self).editing_mode ==> {
                &&& (old(self).selected_field < old(self).item_names().len() ==> form_with(
                    old(self).form_data,
                    final(self).form_data,
                    old(self).item_names()[old(self).selected_field as int],
                    old(self).current_input@,
                ))
                &&& (old(self).selected_field >= old(self).item_names().len() ==> final(self).form_data
                    == old(self).form_data)
                &&& final(self).selected_field == old(self).selected_field
                &&& final(self).validation_errors == old(self).validation_errors
                &&& !final(self).editing_mode
                &&& final(self).current_input@.len() == 0
                &&& r == Some(Msg::SetEditingMode(false))
            },
            key.code == KeyCode::Enter && !old(self).editing_mode ==> if old(self).selected_field
                >= old(self).item_names().len() {
                *final(self) == *old(self) && r is None
            } else if old(self).selected_field == 0 {
                &&& form_with(
                    old(self).form_data,
                    final(self).form_data,
                    "auth_method"@,
                    next_auth_method(old(self).form_data.auth_method@),
                )
                &&& final(self).selected_field == old(self).selected_field
                &&& final(self).validation_errors == old(self).validation_errors
                &&& final(self).editing_mode == old(self).editing_mode
                &&& final(self).current_input == old(self).current_input
                &&& r == Some(Msg::ForceRedraw)
            } else {
                let name = old(self).item_names()[old(self).selected_field as int];
                &&& final(self).form_data == old(self).form_data
                &&& final(self).selected_field == old(self).selected_field
                &&& final(self).validation_errors == old(self).validation_errors
                &&& final(self).editing_mode
                &&& final(self).current_input@ == (if name == "master_password"@ || name
                    == "client_secret"@ {
                    Seq::empty()
                } else {
                    field_value(old(self).form_data, name)
                })
                &&& r == Some(Msg::SetEditingMode(true))
            },
            key.code == KeyCode::Backspace ==> if old(self).editing_mode {
                &&& final(self).form_data == old(self).form_data
                &&& final(self).selected_field == old(self).selected_field
                &&& final(self).validation_errors == old(self).validation_errors
                &&& final(self).editing_mode
                &&& final(self).current_input@ == (if old(self).current_input@.len() > 0 {
                    old(self).current_input@.drop_last()
                } else {
                    old(self).current_input@
                })
                &&& r == Some(Msg::ForceRedraw)
            } else {
                *final(self) == *old(self) && r is None
            },
            key.code == KeyCode::Char('C') && key.modifiers.is_control_only() ==> if old(
                self).editing_mode {
                old(self).typed(final(self), 'C', r)
            } else {
                &&& final(self).form_data == ctx.reloaded_form
                &&& final(self).selected_field == old(self).selected_field
                &&& final(self).validation_errors == old(self).validation_errors
                &&& final(self).editing_mode == old(self).editing_mode
                &&& final(self).current_input == old(self).current_input
                &&& r == Some(Msg::ForceRedraw)
            },
            key.code matches KeyCode::Char(c) ==> (!(c == 's' && (key.modifiers.is_none()
                || key.modifiers.is_control_only())) && !(c == 'C'
                && key.modifiers.is_control_only()) ==> old(self).typed(final(self), c, r)),
            !(key.code is Esc || key.code is Char || key.code is Tab || key.code is Up
                || key.code is Down || key.code is Left || key.code is Right || key.code is Enter
                || key.code is Backspace) ==> *final(self) == *old(self) && r == (if old(
                self).editing_mode {
                Some(Msg::ForceRedraw)
            } else {
                None::<Msg>
            }),
    {
        match key.code {
            KeyCode::Esc => {
                if self.editing_mode {
                    self.editing_mode = false;
                    self.current_input = String::new();
                    Some(Msg::SetEditingMode(false))
                } else {
                    Some(Msg::ConfigActivity(ConfigActivityMsg::Cancel))
                }
            },
            KeyCode::Char('s') if key.modifiers.plain() => {
                if self.editing_mode {
                    self.type_char('s')
                } else {
                    self.save(true, ctx)
                }
            },
            KeyCode::Char('s') if key.modifiers.control_only() => self.save(false, ctx),
            KeyCode::Tab => None,
            KeyCode::Up => {
                if self.editing_mode {
                    None
                } else {
                    if self.selected_field > 0 {
                        self.selected_field = self.selected_field - 1;
                    }
                    Some(Msg::ForceRedraw)
                }
            },
            KeyCode::Down => {
                if self.editing_mode {
                    None
                } else {
                    let fields = self.get_fields_for_auth_method();
                    proof {
                        assert(self.item_names().len() == 1 + fields@.len());
                    }
                    if self.selected_field < fields.len() {
                        self.selected_field = self.selected_field + 1;
                    }
                    Some(Msg::ForceRedraw)
                }
            },
            KeyCode::Left | KeyCode::Right => None,
            KeyCode::Enter => {
                if self.editing_mode {
                    self.confirm_editing()
                } else {
                    self.start_editing()
                }
            },
            KeyCode::Backspace => {
                if self.editing_mode {
                    let _ = string_pop(&mut self.current_input);
                    Some(Msg::ForceRedraw)
                } else {
                    None
                }
            },
            KeyCode::Char('C') if key.modifiers.control_only() => {
                if self.editing_mode {
                    self.type_char('C')
                } else {
                    self.form_data = copy_form(&ctx.reloaded_form);
                    Some(Msg::ForceRedraw)
                }
            },
            KeyCode::Char(c) => self.type_char(c),
            _ => {
                if self.editing_mode {
                    Some(Msg::ForceRedraw)
                } else {
                    None
                }
            },
        }
    }

    fn type_char(&mut self, c: char) -> (r: Option<Msg>)
        ensures
            old(self).typed(final(self), c, r),
    {
        if self.editing_mode {
            if str_byte_len(self.current_input.as_str()) < MAX_INPUT_LENGTH {
                string_push(&mut self.current_input, c);
            }
            Some(Msg::ForceRedraw)
        } else {
            None
        }
    }

    fn save(&mut self, require_password: bool, ctx: &ConfigScreenContext) -> (r: Option<Msg>)
        ensures
            old(self).saved(final(self), require_password, ctx, r),
    {
        self.validation_errors = self.validate_config_internal(
            require_password,
            ctx.has_encrypted_connection,
            &ctx.connection_string_problem,
        );
        if self.validation_errors.len() == 0 {
            let data = self.to_config_update_data();
            if require_password {
                Some(Msg::ConfigActivity(ConfigActivityMsg::Save(data)))
            } else {
                Some(Msg::ConfigActivity(ConfigActivityMsg::ConfirmAndProceed(data)))
            }
        } else {
            None
        }
    }

    /// The name of the entry at `index` of the list, if there is one.
    fn item_name(&self, index: usize) -> (r: Option<&'static str>)
        ensures
            index < self.item_names().len() ==> (r matches Some(n) && n@ == self.item_names()[index as int]),
            index >= self.item_names().len() ==> r is None,
    {
        let fields = self.get_fields_for_auth_method();
        proof {
            reveal_strlit("auth_method");
            assert(self.item_names().len() == 1 + fields@.len());
        }
        if index == 0 {
            Some("auth_method")
        } else if index - 1 < fields.len() {
            let (name, _label, _required) = fields[index - 1];
            proof {
                assert(self.item_names()[index as int] == fields@.map_values(
                    |t: (&str, &str, bool)| (t.0@, t.1@, t.2),
                )[index - 1].0);
            }
            Some(name)
        } else {
            None
        }
    }

    fn confirm_editing(&mut self) -> (r: Option<Msg>)
        requires
            old(self).editing_mode,
        ensures
            old(self).selected_field < old(self).item_names().len() ==> form_with(
                old(self).form_data,
                final(self).form_data,
                old(self).item_names()[old(self).selected_field as int],
                old(self).current_input@,
            ),
            old(self).selected_field >= old(self).item_names().len() ==> final(self).form_data
                == old(self).form_data,
            final(self).selected_field == old(self).selected_field,
            final(self).validation_errors == old(self).validation_errors,
            !final(self).editing_mode,
            final(self).current_input@.len() == 0,
            r == Some(Msg::SetEditingMode(false)),
    {
        if let Some(name) = self.item_name(self.selected_field) {
            let value = self.current_input.clone();
            self.set_field_value(name, value);
        }
        self.editing_mode = false;
        self.current_input = String::new();
        Some(Msg::SetEditingMode(false))
    }

    fn start_editing(&mut self) -> (r: Option<Msg>)
        requires
            !old(self).editing_mode,
        ensures
            if old(self).selected_field >= old(self).item_names().len() {
                *final(self) == *old(self) && r is None
            } else if old(self).selected_field == 0 {
                &&& form_with(
                    old(self).form_data,
                    final(self).form_data,
                    "auth_method"@,
                    next_auth_method(old(self).form_data.auth_method@),
                )
                &&& final(self).selected_field == old(self).selected_field
                &&& final(self).validation_errors == old(self).validation_errors
                &&& final(self).editing_mode == old(self).editing_mode
                &&& final(self).current_input == old(self).current_input
                &&& r == Some(Msg::ForceRedraw)
            } else {
                let name = old(self).item_names()[old(self).selected_field as int];
                &&& final(self).form_data == old(self).form_data
                &&& final(self).selected_field == old(self).selected_field
                &&& final(self).validation_errors == old(self).validation_errors
                &&& final(self).editing_mode
                &&& final(self).current_input@ == (if name == "master_password"@ || name
                    == "client_secret"@ {
                    Seq::empty()
                } else {
                    field_value(old(self).form_data, name)
                })
                &&& r == Some(Msg::SetEditingMode(true))
            },
    {
        match self.item_name(self.selected_field) {
            None => None,
            Some(name) => {
                if self.selected_field == 0 {
                    let next = next_auth_method_of(self.form_data.auth_method.as_str());
                    self.set_field_value("auth_method", owned(next));
                    proof {
                        reveal_strlit("auth_method");
                    }
                    Some(Msg::ForceRedraw)
                } else {
                    let input = if str_eq(name, "master_password") || str_eq(name, "client_secret") {
                        String::new()
                    } else {
                        owned(self.get_field_value(name))
                    };
                    self.editing_mode = true;
                    self.current_input = input;
                    Some(Msg::SetEditingMode(true))
                }
            },
        }
    }

    /// The text the list shows for the entry called `field`: the method's
    /// description, the input being typed (masked for secrets), a mask or a
    /// notice for stored secrets, or `<empty>`.
    pub fn field_display_value(&self, field: &str, is_selected: bool) -> (r: String)
        ensures
            r@ == display_value(*self, field@, is_selected),
    {
        if str_eq(field, "auth_method") {
            let desc = method_description_of(self.form_data.auth_method.as_str());
            let mut text = match desc {
                Some(d) => owned(d),
                None => owned(self.form_data.auth_method.as_str()),
            };
            text.append(" (Enter to cycle)");
            return text;
        }
        let value = self.get_field_value(field);
        let secret = str_eq(field, "client_secret") || str_eq(field, "master_password");
        if self.editing_mode && is_selected {
            let mut text = if secret || str_eq(field, "connection_string") {
                repeat('*', str_byte_len(self.current_input.as_str()))
            } else {
                owned(self.current_input.as_str())
            };
            text.append("_");
            text
        } else if secret {
            if value.is_empty() {
                owned("<empty>")
            } else {
                repeat('*', min_usize(str_byte_len(value), PASSWORD_DISPLAY_LENGTH))
            }
        } else if str_eq(field, "connection_string") {
            if str_contains(value, PLACEHOLDER_ENCRYPTED_CONNECTION_STRING) {
                owned("****** (encrypted data present - enter new to replace)")
            } else if value.is_empty() {
                owned("<empty>")
            } else {
                repeat('*', min_usize(str_byte_len(value), PASSWORD_DISPLAY_LENGTH))
            }
        } else if value.is_empty() {
            owned("<empty>")
        } else {
            owned(value)
        }
    }
}

fn min_usize(a: usize, b: usize) -> (r: usize)
    ensures
        r == if a < b { a } else { b },
{
    if a < b {
        a
    } else {
        b
    }
}

/// The description of an authentication method, if it is one of the known
/// methods.
pub open spec fn method_description(method: Seq<char>) -> Option<Seq<char>> {
    if method == "connection_string"@ {
        Some("Service Bus Connection String"@)
    } else if method == "device_code"@ {
        Some("Azure AD Device Code Flow"@)
    } else if method == "client_secret"@ {
        Some("Azure AD Client Secret Flow"@)
    } else {
        None
    }
}

/// The text shown for the entry called `field`.
pub open spec fn display_value(s: ConfigScreen, field: Seq<char>, is_selected: bool) -> Seq<char> {
    let value = field_value(s.form_data, field);
    let secret = field == "client_secret"@ || field == "master_password"@;
    let mask_len = if (byte_len(value) as usize) < PASSWORD_DISPLAY_LENGTH {
        byte_len(value) as usize as nat
    } else {
        PASSWORD_DISPLAY_LENGTH as nat
    };
    if field == "auth_method"@ {
        (match method_description(s.form_data.auth_method@) {
            Some(d) => d,
            None => s.form_data.auth_method@,
        }) + " (Enter to cycle)"@
    } else if s.editing_mode && is_selected {
        (if secret || field == "connection_string"@ {
            repeat_char('*', byte_len(s.current_input@) as usize as nat)
        } else {
            s.current_input@
        }) + "_"@
    } else if secret {
        if value.len() == 0 {
            "<empty>"@
        } else {
            repeat_char('*', mask_len)
        }
    } else if field == "connection_string"@ {
        if contains(value, connection_placeholder()) {
            "****** (encrypted data present - enter new to replace)"@
        } else if value.len() == 0 {
            "<empty>"@
        } else {
            repeat_char('*', mask_len)
        }
    } else if value.len() == 0 {
        "<empty>"@
    } else {
        value
    }
}

/// The method that follows `method` when cycling: the next of the known
/// methods, wrapping around; an unknown method is followed by the second.
pub open spec fn next_auth_method(method: Seq<char>) -> Seq<char> {
    if method == "connection_string"@ {
        "device_code"@
    } else if method == "device_code"@ {
        "client_secret"@
    } else if method == "client_secret"@ {
        "connection_string"@
    } else {
        "device_code"@
    }
}

/// Cycling three times through the authentication methods comes back to a
/// known method.
pub proof fn lemma_auth_method_cycle(method: Seq<char>)
    requires
        method_description(method) is Some,
    ensures
        next_auth_method(next_auth_method(next_auth_method(method))) == method,
{
    reveal_strlit("connection_string");
    reveal_strlit("device_code");
    reveal_strlit("client_secret");
    assert("connection_string"@.len() == 17);
    assert("device_code"@.len() == 11);
    assert("client_secret"@.len() == 13);
}

fn next_auth_method_of(method: &str) -> (r: &'static str)
    ensures
        r@ == next_auth_method(method@),
{
    if str_eq(method, "connection_string") {
        "device_code"
    } else if str_eq(method, "device_code") {
        "client_secret"
    } else if str_eq(method, "client_secret") {
        "connection_string"
    } else {
        "device_code"
    }
}

fn method_description_of(method: &str) -> (r: Option<&'static str>)
    ensures
        match r {
            Some(d) => method_description(method@) == Some(d@),
            None => method_description(method@) is None,
        },
{
    if str_eq(method, "connection_string") {
        Some("Service Bus Connection String")
    } else if str_eq(method, "device_code") {
        Some("Azure AD Device Code Flow")
    } else if str_eq(method, "client_secret") {
        Some("Azure AD Client Secret Flow")
    } else {
        None
    }
}

fn copy_form(f: &ConfigFormData) -> (r: ConfigFormData)
    ensures
        r == *f,
{
    ConfigFormData {
        auth_method: f.auth_method.clone(),
        tenant_id: f.tenant_id.clone(),
        client_id: f.client_id.clone(),
        client_secret: f.client_secret.clone(),
        subscription_id: f.subscription_id.clone(),
        resource_group: f.resource_group.clone(),
        namespace: f.namespace.clone(),
        connection_string: f.connection_string.clone(),
        master_password: f.master_password.clone(),
        queue_name: f.queue_name.clone(),
    }
}


// ---------------------------------------------------------------------------
// The authentication tab as shown
// ---------------------------------------------------------------------------

/// How the label of an entry is shown.
#[derive(Debug, Clone, Copy, PartialEq, Eq, Structural)]
pub enum FieldLabelStyle {
    /// The highlighted entry.
    Selected,
    /// A required entry left blank.
    MissingRequired,
    Normal,
}

/// The colour role of an entry's value: the method entry is coloured by the
/// chosen method, every other value is plain.
#[derive(Debug, Clone, Copy, PartialEq, Eq, Structural)]
pub enum FieldValueColor {
    ConnectionString,
    DeviceCode,
    ClientSecret,
    Plain,
}

/// One entry of the authentication list: its label (required marker, label
/// and colon), its value and how both are shown.
#[derive(Debug, Clone)]
pub struct AuthTabItem {
    pub label: String,
    pub value: String,
    pub label_style: FieldLabelStyle,
    pub value_color: FieldValueColor,
}

/// The entries of the list: the method, then the fields of the method.
pub open spec fn auth_tab_entries(s: ConfigScreen) -> Seq<(Seq<char>, Seq<char>, bool)> {
    seq![("auth_method"@, "Authentication Method"@, true)] + fields_for(
        s.form_data.auth_method@,
        unlock_mode(s.form_data),
    )
}

/// The colour of the method entry's value.
pub open spec fn method_color(method: Seq<char>) -> FieldValueColor {
    if method == "connection_string"@ {
        FieldValueColor::ConnectionString
    } else if method == "device_code"@ {
        FieldValueColor::DeviceCode
    } else if method == "client_secret"@ {
        FieldValueColor::ClientSecret
    } else {
        FieldValueColor::Plain
    }
}

/// `it` is how the screen `s` shows entry `e` at position `i`.
pub open spec fn shows_entry(
    s: ConfigScreen,
    i: int,
    e: (Seq<char>, Seq<char>, bool),
    it: AuthTabItem,
) -> bool {
    let selected = i == s.selected_field;
    &&& it.label@ == (if e.2 {
        "*"@
    } else {
        " "@
    }) + e.1 + ": "@
    &&& it.value@ == display_value(s, e.0, selected)
    &&& it.label_style == (if selected {
        FieldLabelStyle::Selected
    } else if e.2 && is_blank(field_value(s.form_data, e.0)) {
        FieldLabelStyle::MissingRequired
    } else {
        FieldLabelStyle::Normal
    })
    &&& it.value_color == (if e.0 == "auth_method"@ {
        method_color(s.form_data.auth_method@)
    } else {
        FieldValueColor::Plain
    })
}

/// The shortcuts of the action line, as text and whether it is a key.
pub open spec fn action_pairs(editing: bool) -> Seq<(Seq<char>, bool)> {
    if editing {
        seq![
            ("Type to edit"@, false),
            (" "@, false),
            ("[Enter]"@, true),
            (" confirm "@, false),
            ("[Esc]"@, true),
            (" cancel editing"@, false),
        ]
    } else {
        seq![
            ("[Enter]"@, true),
            (" edit field/cycle auth "@, false),
            ("[↑↓]"@, true),
            (" navigate "@, false),
            ("[Esc]"@, true),
            (" cancel "@, false),
            ("[s]"@, true),
            (" save for next startup "@, false),
            ("[Ctrl+S]"@, true),
            (" save & login"@, false),
        ]
    }
}

fn method_color_of(method: &str) -> (r: FieldValueColor)
    ensures
        r == method_color(method@),
{
    if str_eq(method, "connection_string") {
        FieldValueColor::ConnectionString
    } else if str_eq(method, "device_code") {
        FieldValueColor::DeviceCode
    } else if str_eq(method, "client_secret") {
        FieldValueColor::ClientSecret
    } else {
        FieldValueColor::Plain
    }
}

impl ConfigScreen {
    /// The entries of the authentication list as shown: the method first,
    /// then each field of the method, with its label, value and styles.
    pub fn authentication_items(&self) -> (r: Vec<AuthTabItem>)
        ensures
            r.len() == auth_tab_entries(*self).len(),
            forall|i: int|
                0 <= i < r.len() ==> shows_entry(*self, i, auth_tab_entries(*self)[i], #[trigger] r[i]),
    {
        let fields = self.get_fields_for_auth_method();
        let ghost fv = fields@.map_values(|t: (&str, &str, bool)| (t.0@, t.1@, t.2));
        let mut entries: Vec<(&'static str, &'static str, bool)> = Vec::new();
        entries.push(("auth_method", "Authentication Method", true));
        let mut j: usize = 0;
        while j < fields.len()
            invariant
                j <= fields.len(),
                fv == fields@.map_values(|t: (&str, &str, bool)| (t.0@, t.1@, t.2)),
                entries@.map_values(|t: (&str, &str, bool)| (t.0@, t.1@, t.2)) =~= seq![
                    ("auth_method"@, "Authentication Method"@, true),
                ] + fv.take(j as int),
            decreases fields.len() - j,
        {
            let ghost before = entries@;
            entries.push(fields[j]);
            proof {
                assert(entries@.map_values(|t: (&str, &str, bool)| (t.0@, t.1@, t.2))
                    =~= before.map_values(|t: (&str, &str, bool)| (t.0@, t.1@, t.2)).push(
                    fv[j as int],
                ));
                assert(fv.take(j + 1) =~= fv.take(j as int).push(fv[j as int]));
            }
            j = j + 1;
        }
        let ghost ev = entries@.map_values(|t: (&str, &str, bool)| (t.0@, t.1@, t.2));
        proof {
            assert(fv.take(fields.len() as int) =~= fv);
            assert(ev =~= auth_tab_entries(*self));
        }
        let mut items: Vec<AuthTabItem> = Vec::new();
        let mut i: usize = 0;
        while i < entries.len()
            invariant
                i <= entries.len(),
                ev == entries@.map_values(|t: (&str, &str, bool)| (t.0@, t.1@, t.2)),
                ev == auth_tab_entries(*self),
                items.len() == i,
                forall|k: int| 0 <= k < i ==> shows_entry(*self, k, ev[k], #[trigger] items[k]),
            decreases entries.len() - i,
        {
            let (name, label, required) = entries[i];
            proof {
                assert(ev[i as int] == (name@, label@, required));
            }
            let is_selected = i == self.selected_field;
            let marker = if required {
                "*"
            } else {
                " "
            };
            let label_text = concat3(marker, label, ": ");
            let value = self.field_display_value(name, is_selected);
            let label_style = if is_selected {
                FieldLabelStyle::Selected
            } else if required && is_blank_str(self.get_field_value(name)) {
                FieldLabelStyle::MissingRequired
            } else {
                FieldLabelStyle::Normal
            };
            let value_color = if str_eq(name, "auth_method") {
                method_color_of(self.form_data.auth_method.as_str())
            } else {
                FieldValueColor::Plain
            };
            items.push(AuthTabItem { label: label_text, value, label_style, value_color });
            i = i + 1;
        }
        items
    }

    /// The action line under the list: the shortcuts of the current mode,
    /// separated by bars as in the help bar.
    pub fn action_spans(&self) -> (r: Vec<(String, BarSpanKind)>)
        ensures
            bar_span_views(r@) == separated_bar(action_pairs(self.editing_mode)),
    {
        let mut pairs: Vec<(String, bool)> = Vec::new();
        if self.editing_mode {
            pairs.push((owned("Type to edit"), false));
            pairs.push((owned(" "), false));
            pairs.push((owned("[Enter]"), true));
            pairs.push((owned(" confirm "), false));
            pairs.push((owned("[Esc]"), true));
            pairs.push((owned(" cancel editing"), false));
        } else {
            pairs.push((owned("[Enter]"), true));
            pairs.push((owned(" edit field/cycle auth "), false));
            pairs.push((owned("[↑↓]"), true));
            pairs.push((owned(" navigate "), false));
            pairs.push((owned("[Esc]"), true));
            pairs.push((owned(" cancel "), false));
            pairs.push((owned("[s]"), true));
            pairs.push((owned(" save for next startup "), false));
            pairs.push((owned("[Ctrl+S]"), true));
            pairs.push((owned(" save & login"), false));
        }
        assert(bar_views(pairs@) =~= action_pairs(self.editing_mode));
        bar_spans(&pairs)
    }
}

/// An element of a concatenation of texts is an element of one of its parts.
broadcast proof fn lemma_texts_concat_contains(a: Seq<Seq<char>>, b: Seq<Seq<char>>, x: Seq<char>)
    ensures
        #[trigger] (a + b).contains(x) <==> a.contains(x) || b.contains(x),
{
    if a.contains(x) {
        let i = choose|i: int| 0 <= i < a.len() && a[i] == x;
        assert((a + b)[i] == x);
    }
    if b.contains(x) {
        let j = choose|j: int| 0 <= j < b.len() && b[j] == x;
        assert((a + b)[a.len() + j] == x);
    }
    if (a + b).contains(x) {
        let k = choose|k: int| 0 <= k < (a + b).len() && (a + b)[k] == x;
        if k < a.len() {
            assert(a[k] == x);
        } else {
            assert(b[k - a.len()] == x);
        }
    }
}

/// A one-element list holds its element.
broadcast proof fn lemma_single_contains(x: Seq<char>)
    ensures
        #[trigger] seq![x].contains(x),
{
    assert(seq![x][0] == x);
}

/// The form asks for every credential its authentication method needs: a
/// blank tenant id or client id is reported for device code and client
/// secret, a blank client secret for client secret, a blank connection
/// string for connection string (unless an encrypted one is kept), and an
/// unknown method is refused. A form with all its method's credentials and,
/// for a new client secret, the master password, has no problem.
pub proof fn lemma_form_requires_credentials(
    f: ConfigFormData,
    require_password: bool,
    has_encrypted_connection: bool,
    connection_string_problem: Option<Seq<char>>,
)
    ensures
        ({
            let m = f.auth_method@;
            let errs = form_errors(
                f,
                require_password,
                has_encrypted_connection,
                connection_string_problem,
            );
            &&& m == "device_code"@ && is_blank(f.tenant_id@) ==> errs.contains(
                "Tenant ID is required for device code flow"@,
            )
            &&& m == "device_code"@ && is_blank(f.client_id@) ==> errs.contains(
                "Client ID is required for device code flow"@,
            )
            &&& m == "client_secret"@ && is_blank(f.tenant_id@) ==> errs.contains(
                "Tenant ID is required for client secret flow"@,
            )
            &&& m == "client_secret"@ && is_blank(f.client_id@) ==> errs.contains(
                "Client ID is required for client secret flow"@,
            )
            &&& m == "client_secret"@ && is_blank(f.client_secret@) ==> errs.contains(
                "Client Secret is required for client secret flow"@,
            )
            &&& m == "connection_string"@ && !has_encrypted_connection && trim(
                f.connection_string@,
            ).len() == 0 ==> errs == seq![
                "Connection string is required for connection_string auth method"@,
            ]
            &&& m != "connection_string"@ && m != "device_code"@ && m != "client_secret"@ ==> errs
                == seq!["Invalid authentication method selected"@]
            &&& m == "device_code"@ && !is_blank(f.tenant_id@) && !is_blank(f.client_id@) ==> errs.len()
                == 0
            &&& m == "client_secret"@ && !is_blank(f.tenant_id@) && !is_blank(f.client_id@)
                && !is_blank(f.client_secret@) && (contains(f.client_secret@, secret_placeholder())
                || !is_blank(f.master_password@)) ==> errs.len() == 0
        }),
{
    broadcast use lemma_texts_concat_contains, lemma_single_contains;
    crate::config::lemma_auth_methods_differ();
}

} // verus!
