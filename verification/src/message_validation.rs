//! Checks a message body before it is sent: not blank, within the size limit,
//! free of control characters, and one JSON value.
use vstd::prelude::*;
use crate::error::AppError;
use crate::text::{
    byte_len, char_utf8_len, decimal, is_control, is_control_char, lemma_byte_len_take_next,
    owned, str_byte_len, str_trim, trim, unsigned_to_string, utf8_width,
};
use crate::validation_patterns::{
    opt_view, result_view, string_length_outcome, CommonValidationError,
    CommonValidationErrorView, StringLengthValidator,
};

verus! {

/// Why a message body was refused.
#[derive(Debug, Clone)]
pub enum MessageValidationError {
    /// A failure of one of the common validators.
    Common(CommonValidationError),
    /// The body is not JSON; `reason` is the parser's message.
    InvalidJson { reason: String },
    /// The body holds a control character.
    InvalidCharacters { characters: String },
}

/// The mathematical content of a [`MessageValidationError`].
pub enum MessageValidationErrorView {
    Common(CommonValidationErrorView),
    InvalidJson { reason: Seq<char> },
    InvalidCharacters { characters: Seq<char> },
}

impl View for MessageValidationError {
    type V = MessageValidationErrorView;

    open spec fn view(&self) -> MessageValidationErrorView {
        match self {
            MessageValidationError::Common(e) => MessageValidationErrorView::Common(e@),
            MessageValidationError::InvalidJson { reason } =>
                MessageValidationErrorView::InvalidJson { reason: reason@ },
            MessageValidationError::InvalidCharacters { characters } =>
                MessageValidationErrorView::InvalidCharacters { characters: characters@ },
        }
    }
}

impl MessageValidationErrorView {
    /// The message shown to the user for this failure.
    pub open spec fn message(self) -> Seq<char> {
        match self {
            MessageValidationErrorView::Common(e) => e.message(),
            MessageValidationErrorView::InvalidJson { reason } => "Invalid JSON format!\n\nError: "@
                + reason + "\n\nPlease check your JSON syntax and try again."@,
            MessageValidationErrorView::InvalidCharacters { characters } =>
                "Message contains invalid characters!\n\nInvalid characters: "@ + characters
                + "\n\nPlease remove these characters and try again."@,
        }
    }
}

/// The view of a message validation result.
pub open spec fn outcome_view(r: Result<(), MessageValidationError>) -> Result<
    (),
    MessageValidationErrorView,
> {
    match r {
        Ok(()) => Ok(()),
        Err(e) => Err(e@),
    }
}

/// A common validation outcome as a message validation outcome.
pub open spec fn lift_common(r: Result<(), CommonValidationErrorView>) -> Result<
    (),
    MessageValidationErrorView,
> {
    match r {
        Ok(()) => Ok(()),
        Err(e) => Err(MessageValidationErrorView::Common(e)),
    }
}

impl MessageValidationError {
    /// The message shown to the user.
    pub fn user_message(&self) -> (r: String)
        ensures
            r@ == self@.message(),
    {
        match self {
            MessageValidationError::Common(common_error) => common_error.user_message(),
            MessageValidationError::InvalidJson { reason } => {
                let mut r = owned("Invalid JSON format!\n\nError: ");
                r.append(reason.as_str());
                r.append("\n\nPlease check your JSON syntax and try again.");
                r
            },
            MessageValidationError::InvalidCharacters { characters } => {
                let mut r = owned("Message contains invalid characters!\n\nInvalid characters: ");
                r.append(characters.as_str());
                r.append("\n\nPlease remove these characters and try again.");
                r
            },
        }
    }

    /// A JSON failure with the parser's reason.
    pub fn invalid_json(reason: &str) -> (r: Self)
        ensures
            r@ == (MessageValidationErrorView::InvalidJson { reason: reason@ }),
    {
        MessageValidationError::InvalidJson { reason: owned(reason) }
    }

    /// A failure naming the offending characters.
    pub fn invalid_characters(characters: &str) -> (r: Self)
        ensures
            r@ == (MessageValidationErrorView::InvalidCharacters { characters: characters@ }),
    {
        MessageValidationError::InvalidCharacters { characters: owned(characters) }
    }

    /// A failure of one of the common validators.
    pub fn common(error: CommonValidationError) -> (r: Self)
        ensures
            r@ == MessageValidationErrorView::Common(error@),
    {
        MessageValidationError::Common(error)
    }

    /// The application error this failure is reported as: a configuration
    /// error carrying the user message.
    pub fn to_app_error(&self) -> (r: AppError)
        ensures
            r matches AppError::Config(m) && m@ == self@.message(),
    {
        AppError::Config(self.user_message())
    }
}

/// A common validation result as a message validation result.
fn lift(r: Result<(), CommonValidationError>) -> (out: Result<(), MessageValidationError>)
    ensures
        outcome_view(out) == lift_common(result_view(r)),
{
    match r {
        Ok(()) => Ok(()),
        Err(e) => Err(MessageValidationError::Common(e)),
    }
}

/// Field name under which the body's length is reported.
pub open spec fn content_field() -> Seq<char> {
    "message content"@
}

/// Checks that the body is not blank.
pub struct MessageContentValidator {
    pub validator: StringLengthValidator,
}

impl MessageContentValidator {
    /// Requires at least one byte once surrounding whitespace is trimmed.
    pub fn new() -> (r: Self)
        ensures
            r.validator.field_name@ == content_field(),
            r.validator.min_length == Some(1usize),
            r.validator.max_length is None,
    {
        MessageContentValidator {
            validator: StringLengthValidator::new("message content").with_min_length(1),
        }
    }

    /// Checks the body, trimmed of surrounding whitespace, against the length
    /// bounds; the body itself is left as it is.
    pub fn validate(&self, input: &str) -> (r: Result<(), MessageValidationError>)
        ensures
            outcome_view(r) == lift_common(
                string_length_outcome(
                    self.validator.field_name@,
                    self.validator.min_length,
                    self.validator.max_length,
                    trim(input@),
                ),
            ),
    {
        let trimmed = str_trim(input);
        lift(self.validator.validate(trimmed))
    }
}

impl Default for MessageContentValidator {
    /// The validator of [`MessageContentValidator::new`].
    fn default() -> (r: Self)
        ensures
            r.validator.field_name@ == content_field(),
            r.validator.min_length == Some(1usize),
            r.validator.max_length is None,
    {
        Self::new()
    }
}

/// Checks that the body fits a size limit.
pub struct MessageSizeValidator {
    pub validator: StringLengthValidator,
}

impl MessageSizeValidator {
    /// Allows at most `max_size` bytes.
    pub fn new(max_size: usize) -> (r: Self)
        ensures
            r.validator.field_name@ == content_field(),
            r.validator.min_length is None,
            r.validator.max_length == Some(max_size),
    {
        MessageSizeValidator {
            validator: StringLengthValidator::new("message content").with_max_length(max_size),
        }
    }

    /// Checks the body's length in bytes against the bounds.
    pub fn validate(&self, input: &str) -> (r: Result<(), MessageValidationError>)
        ensures
            outcome_view(r) == lift_common(
                string_length_outcome(
                    self.validator.field_name@,
                    self.validator.min_length,
                    self.validator.max_length,
                    input@,
                ),
            ),
    {
        lift(self.validator.validate(input))
    }
}

/// What `serde_json` reports for `input`: `None` where it is one JSON value,
/// the parse error's message otherwise.
pub uninterp spec fn json_parse_error(input: Seq<char>) -> Option<Seq<char>>;

/// `serde_json::from_str::<serde_json::Value>`: whether `input` parses as one
/// JSON value; where it does not, the error's `Display` text. Which inputs
/// parse and the wording of the error are serde_json's and are not stated
/// here beyond their name.
#[verifier::external_body]
fn json_syntax_error(input: &str) -> (r: Option<String>)
    ensures
        opt_view(r) == json_parse_error(input@),
{
    match serde_json::from_str::<serde_json::Value>(input) {
        Ok(_) => None,
        Err(e) => Some(e.to_string()),
    }
}

/// Checks that the body is one JSON value, as every message sent must be.
pub struct JsonFormatValidator;

impl JsonFormatValidator {
    /// Checks `input` with serde_json.
    pub fn validate(&self, input: &str) -> (r: Result<(), MessageValidationError>)
        ensures
            outcome_view(r) == Self::json_outcome(json_parse_error(input@)),
    {
        Self::outcome_of(json_syntax_error(input))
    }

    /// The outcome for a parse result: accepted without an error, refused
    /// with the parser's message as the reason otherwise.
    pub open spec fn json_outcome(error: Option<Seq<char>>) -> Result<
        (),
        MessageValidationErrorView,
    > {
        match error {
            None => Ok(()),
            Some(reason) => Err(MessageValidationErrorView::InvalidJson { reason }),
        }
    }

    /// The outcome for the parser's error, if any.
    pub fn outcome_of(error: Option<String>) -> (r: Result<(), MessageValidationError>)
        ensures
            outcome_view(r) == Self::json_outcome(opt_view(error)),
    {
        match error {
            None => Ok(()),
            Some(reason) => Err(MessageValidationError::InvalidJson { reason }),
        }
    }
}

/// A control character other than newline, carriage return and tab.
pub open spec fn is_forbidden_char(c: char) -> bool {
    is_control_char(c) && c != '\n' && c != '\r' && c != '\t'
}

/// `Debug` of a `char`: the character between single quotes, escaped.
pub uninterp spec fn char_debug(c: char) -> Seq<char>;

/// A hexadecimal digit, in lower case.
pub open spec fn hex_digit(d: nat) -> char {
    if d < 10 {
        ('0' as nat + d) as char
    } else {
        ('a' as nat + d - 10) as char
    }
}

/// The lowercase hexadecimal digits of `n`, without leading zeros.
pub open spec fn lower_hex(n: nat) -> Seq<char>
    decreases n,
{
    if n < 16 {
        seq![hex_digit(n)]
    } else {
        lower_hex(n / 16).push(hex_digit(n % 16))
    }
}

/// `format!("{:?}", c)` for a `char`: the character between single quotes,
/// escaped as std escapes it. That escaping is given a name here; of the
/// control characters, std writes NUL as `\0` and the others (tab, line
/// feed and carriage return apart) as `\u{..}` with the code in lowercase
/// hexadecimal.
#[verifier::external_body]
fn debug_char(c: char) -> (r: String)
    ensures
        r@ == char_debug(c),
        c == '\0' ==> r@ == "'\\0'"@,
        is_control_char(c) && c != '\0' && c != '\t' && c != '\n' && c != '\r' ==> r@ == "'\\u{"@
            + lower_hex(c as nat) + "}'"@,
{
    format!("{:?}", c)
}

/// The description of a forbidden character at byte `position`.
pub open spec fn control_char_text(position: nat, c: char) -> Seq<char> {
    "Control character at position "@ + decimal(position) + ": "@ + char_debug(c)
}

/// The body holds a forbidden character.
pub open spec fn has_forbidden_char(s: Seq<char>) -> bool {
    exists|k: int| 0 <= k < s.len() && is_forbidden_char(#[trigger] s[k])
}

/// `k` is the index of the first forbidden character of `s`.
pub open spec fn is_first_forbidden(s: Seq<char>, k: int) -> bool {
    &&& 0 <= k < s.len()
    &&& is_forbidden_char(s[k])
    &&& forall|j: int| 0 <= j < k ==> !is_forbidden_char(#[trigger] s[j])
}

/// What the encoding check decides: refused at the first forbidden
/// character, with its byte position and escaped form.
pub open spec fn encoding_outcome(s: Seq<char>) -> Result<(), MessageValidationErrorView> {
    if has_forbidden_char(s) {
        let k = choose|k: int| is_first_forbidden(s, k);
        Err(
            MessageValidationErrorView::InvalidCharacters {
                characters: control_char_text(byte_len(s.take(k)), s[k]),
            },
        )
    } else {
        Ok(())
    }
}

/// The first forbidden character is unique.
proof fn lemma_first_forbidden_unique(s: Seq<char>, k: int)
    requires
        is_first_forbidden(s, k),
    ensures
        has_forbidden_char(s),
        (choose|j: int| is_first_forbidden(s, j)) == k,
{
    assert(is_forbidden_char(s[k]));
    let j = choose|j: int| is_first_forbidden(s, j);
    assert(is_first_forbidden(s, j));
    if j < k {
        assert(!is_forbidden_char(s[j]));
    } else if j > k {
        assert(!is_forbidden_char(s[k]));
    }
}

/// Checks that the body holds no control character besides newlines, carriage
/// returns and tabs.
pub struct MessageEncodingValidator;

impl MessageEncodingValidator {
    /// Refuses the first forbidden control character, naming its byte
    /// position and its escaped form.
    pub fn validate(&self, input: &str) -> (r: Result<(), MessageValidationError>)
        ensures
            outcome_view(r) == encoding_outcome(input@),
    {
        let total = str_byte_len(input);
        let mut pos: usize = 0;
        let ghost mut k: int = 0;
        for ch in iter: input.chars()
            invariant
                iter.seq() == input@,
                k == iter.index(),
                pos as nat == byte_len(input@.take(k)),
                total as nat == byte_len(input@),
                forall|j: int| 0 <= j < k ==> !is_forbidden_char(#[trigger] input@[j]),
        {
            proof {
                assert(ch == input@[k]);
                lemma_byte_len_take_next(input@, k);
                lemma_prefix_bytes_within(input@, k + 1);
            }
            if is_control(ch) && ch != '\n' && ch != '\r' && ch != '\t' {
                let mut text = owned("Control character at position ");
                let position = unsigned_to_string(pos as u128);
                text.append(position.as_str());
                text.append(": ");
                let escaped = debug_char(ch);
                text.append(escaped.as_str());
                proof {
                    lemma_first_forbidden_unique(input@, k);
                }
                return Err(MessageValidationError::InvalidCharacters { characters: text });
            }
            pos = pos + char_utf8_len(ch);
            proof {
                k = k + 1;
            }
        }
        Ok(())
    }
}

/// A prefix takes no more bytes than the whole text.
proof fn lemma_prefix_bytes_within(s: Seq<char>, k: int)
    requires
        0 <= k <= s.len(),
    ensures
        byte_len(s.take(k)) <= byte_len(s),
{
    assert(s =~= s.take(k) + s.skip(k));
    crate::text::lemma_encode_concat(s.take(k), s.skip(k));
}

/// Azure Service Bus's limit on a message body, in bytes.
pub const AZURE_MAX_MESSAGE_SIZE: usize = 262144;

/// All checks of a message body, in order: not blank, within the size limit,
/// free of control characters, one JSON value.
pub struct CompleteMessageValidator {
    pub content_validator: MessageContentValidator,
    pub size_validator: MessageSizeValidator,
    pub json_validator: JsonFormatValidator,
    pub encoding_validator: MessageEncodingValidator,
}

impl CompleteMessageValidator {
    /// All checks, with a size limit of `max_size` bytes.
    pub fn new(max_size: usize) -> (r: Self)
        ensures
            r.content_validator.validator.field_name@ == content_field(),
            r.content_validator.validator.min_length == Some(1usize),
            r.content_validator.validator.max_length is None,
            r.size_validator.validator.field_name@ == content_field(),
            r.size_validator.validator.min_length is None,
            r.size_validator.validator.max_length == Some(max_size),
    {
        CompleteMessageValidator {
            content_validator: MessageContentValidator::new(),
            size_validator: MessageSizeValidator::new(max_size),
            json_validator: JsonFormatValidator,
            encoding_validator: MessageEncodingValidator,
        }
    }

    /// All checks with Azure's limit of 256 KiB.
    pub fn azure_default() -> (r: Self)
        ensures
            r.content_validator.validator.field_name@ == content_field(),
            r.content_validator.validator.min_length == Some(1usize),
            r.content_validator.validator.max_length is None,
            r.size_validator.validator.field_name@ == content_field(),
            r.size_validator.validator.min_length is None,
            r.size_validator.validator.max_length == Some(AZURE_MAX_MESSAGE_SIZE),
    {
        Self::new(AZURE_MAX_MESSAGE_SIZE)
    }

    /// The outcome of the checks on `input`: the first that fails decides.
    pub open spec fn outcome(self, input: Seq<char>) -> Result<(), MessageValidationErrorView> {
        let c = self.content_validator.validator;
        let z = self.size_validator.validator;
        let content = lift_common(
            string_length_outcome(c.field_name@, c.min_length, c.max_length, trim(input)),
        );
        let size = lift_common(
            string_length_outcome(z.field_name@, z.min_length, z.max_length, input),
        );
        if content is Err {
            content
        } else if size is Err {
            size
        } else if encoding_outcome(input) is Err {
            encoding_outcome(input)
        } else {
            JsonFormatValidator::json_outcome(json_parse_error(input))
        }
    }

    /// Runs the checks in order and reports the first failure.
    pub fn validate(&self, input: &str) -> (r: Result<(), MessageValidationError>)
        ensures
            outcome_view(r) == self.outcome(input@),
    {
        let c = self.content_validator.validate(input);
        if c.is_err() {
            return c;
        }
        let s = self.size_validator.validate(input);
        if s.is_err() {
            return s;
        }
        let e = self.encoding_validator.validate(input);
        if e.is_err() {
            return e;
        }
        self.json_validator.validate(input)
    }
}

/// The encoding check accepts exactly the bodies without control characters
/// other than tab, line feed and carriage return (U+0000 to U+001F and
/// U+007F to U+009F); it refuses the first such character, at its byte
/// position.
pub proof fn lemma_encoding_refuses_control_characters(s: Seq<char>)
    ensures
        encoding_outcome(s) is Ok <==> forall|k: int|
            0 <= k < s.len() ==> !(((#[trigger] s[k]) as u32 <= 0x1F || (0x7F <= s[k] as u32
                && s[k] as u32 <= 0x9F)) && s[k] != '\n' && s[k] != '\r' && s[k] != '\t'),
        forall|k: int|
            0 <= k < s.len() && (((#[trigger] s[k]) as u32 <= 0x1F || (0x7F <= s[k] as u32
                && s[k] as u32 <= 0x9F)) && s[k] != '\n' && s[k] != '\r' && s[k] != '\t') && (
            forall|j: int|
                0 <= j < k ==> !(((#[trigger] s[j]) as u32 <= 0x1F || (0x7F <= s[j] as u32
                    && s[j] as u32 <= 0x9F)) && s[j] != '\n' && s[j] != '\r' && s[j] != '\t'))
                ==> encoding_outcome(s) == Err::<(), MessageValidationErrorView>(
                MessageValidationErrorView::InvalidCharacters {
                    characters: "Control character at position "@ + decimal(byte_len(s.take(k)))
                        + ": "@ + char_debug(s[k]),
                },
            ),
{
    assert forall|k: int|
        0 <= k < s.len() && (((#[trigger] s[k]) as u32 <= 0x1F || (0x7F <= s[k] as u32 && s[k] as u32
            <= 0x9F)) && s[k] != '\n' && s[k] != '\r' && s[k] != '\t') && (forall|j: int|
            0 <= j < k ==> !(((#[trigger] s[j]) as u32 <= 0x1F || (0x7F <= s[j] as u32 && s[j] as u32
                <= 0x9F)) && s[j] != '\n' && s[j] != '\r' && s[j] != '\t')) implies encoding_outcome(s)
        == Err::<(), MessageValidationErrorView>(
        MessageValidationErrorView::InvalidCharacters {
            characters: "Control character at position "@ + decimal(byte_len(s.take(k))) + ": "@
                + char_debug(s[k]),
        },
    ) by {
        assert(is_first_forbidden(s, k));
        lemma_first_forbidden_unique(s, k);
    }
}

/// A message passes all checks exactly when, with the bounds the validator is
/// built with, it is not blank, fits the size limit, holds no control
/// character other than tab, line feed and carriage return, and is one JSON
/// value.
pub proof fn lemma_complete_validation(v: CompleteMessageValidator, input: Seq<char>)
    requires
        v.content_validator.validator.min_length == Some(1usize),
        v.content_validator.validator.max_length is None,
        v.size_validator.validator.min_length is None,
        v.size_validator.validator.max_length is Some,
        byte_len(input) <= usize::MAX,
    ensures
        v.outcome(input) is Ok <==> {
            &&& byte_len(trim(input)) >= 1
            &&& byte_len(input) <= v.size_validator.validator.max_length->0
            &&& encoding_outcome(input) is Ok
            &&& json_parse_error(input) is None
        },
        byte_len(trim(input)) == 0 ==> v.outcome(input) is Err,
        byte_len(input) > v.size_validator.validator.max_length->0 ==> v.outcome(input) is Err,
{
    crate::text::lemma_trim_bytes_within(input);
}

} // verus!
