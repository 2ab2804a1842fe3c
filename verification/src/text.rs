//! Character and string vocabulary shared by the whole library: the
//! mathematical meaning of the std string operations the library relies on,
//! and the small wrappers through which it calls them.
use vstd::prelude::*;
use vstd::string::StringSliceAdditionalSpecFns;

verus! {

// ---------------------------------------------------------------------------
// Whitespace and trimming
// ---------------------------------------------------------------------------

/// The Unicode `White_Space` property, which `char::is_whitespace` and
/// `str::trim` are documented to follow.
pub open spec fn is_unicode_whitespace(c: char) -> bool {
    let u = c as u32;
    ||| 0x09 <= u <= 0x0D
    ||| u == 0x20
    ||| u == 0x85
    ||| u == 0xA0
    ||| u == 0x1680
    ||| 0x2000 <= u <= 0x200A
    ||| u == 0x2028
    ||| u == 0x2029
    ||| u == 0x202F
    ||| u == 0x205F
    ||| u == 0x3000
}

/// `s` without its leading whitespace.
pub open spec fn trim_start(s: Seq<char>) -> Seq<char>
    decreases s.len(),
{
    if s.len() > 0 && is_unicode_whitespace(s[0]) {
        trim_start(s.drop_first())
    } else {
        s
    }
}

/// `s` without its trailing whitespace.
pub open spec fn trim_end(s: Seq<char>) -> Seq<char>
    decreases s.len(),
{
    if s.len() > 0 && is_unicode_whitespace(s.last()) {
        trim_end(s.drop_last())
    } else {
        s
    }
}

/// `s` without leading and trailing whitespace, as `str::trim` returns it.
pub open spec fn trim(s: Seq<char>) -> Seq<char> {
    trim_end(trim_start(s))
}

/// Every character of `s` is whitespace (the empty sequence included).
pub open spec fn is_blank(s: Seq<char>) -> bool {
    forall|i: int| 0 <= i < s.len() ==> is_unicode_whitespace(#[trigger] s[i])
}

proof fn lemma_trim_start_empty_iff_blank(s: Seq<char>)
    ensures
        (trim_start(s).len() == 0) == is_blank(s),
    decreases s.len(),
{
    if s.len() > 0 {
        lemma_trim_start_empty_iff_blank(s.drop_first());
        if is_unicode_whitespace(s[0]) {
            assert(is_blank(s) == is_blank(s.drop_first())) by {
                if is_blank(s.drop_first()) {
                    assert forall|i: int| 0 <= i < s.len() implies is_unicode_whitespace(
                        #[trigger] s[i],
                    ) by {
                        if i > 0 {
                            assert(s[i] == s.drop_first()[i - 1]);
                        }
                    }
                }
                if is_blank(s) {
                    assert forall|i: int| 0 <= i < s.drop_first().len() implies is_unicode_whitespace(
                        #[trigger] s.drop_first()[i],
                    ) by {
                        assert(s.drop_first()[i] == s[i + 1]);
                    }
                }
            }
        } else {
            assert(!is_unicode_whitespace(s[0]));
        }
    }
}

proof fn lemma_trim_end_len(s: Seq<char>)
    ensures
        trim_end(s).len() == 0 ==> is_blank(s),
        s.len() > 0 && !is_unicode_whitespace(s[0]) ==> trim_end(s).len() > 0,
    decreases s.len(),
{
    if s.len() > 0 && is_unicode_whitespace(s.last()) {
        lemma_trim_end_len(s.drop_last());
        if trim_end(s).len() == 0 {
            assert forall|i: int| 0 <= i < s.len() implies is_unicode_whitespace(#[trigger] s[i]) by {
                if i < s.len() - 1 {
                    assert(s[i] == s.drop_last()[i]);
                }
            }
        }
        if s.len() > 0 && !is_unicode_whitespace(s[0]) && s.len() > 1 {
            assert(s.drop_last()[0] == s[0]);
        }
    }
}

/// The trimmed text is empty exactly when the text is blank.
pub proof fn lemma_trim_empty_iff_blank(s: Seq<char>)
    ensures
        (trim(s).len() == 0) == is_blank(s),
{
    lemma_trim_start_empty_iff_blank(s);
    lemma_trim_end_len(trim_start(s));
    lemma_trim_start_shape(s);
}

proof fn lemma_trim_start_shape(s: Seq<char>)
    ensures
        trim_start(s).len() > 0 ==> !is_unicode_whitespace(trim_start(s)[0]),
    decreases s.len(),
{
    if s.len() > 0 && is_unicode_whitespace(s[0]) {
        lemma_trim_start_shape(s.drop_first());
    }
}

/// `str::trim`: the text without leading and trailing Unicode whitespace.
#[verifier::external_body]
pub(crate) fn str_trim(s: &str) -> (r: &str)
    ensures
        r@ == trim(s@),
{
    s.trim()
}

/// Whether the text is empty or made of whitespace only.
pub fn is_blank_str(s: &str) -> (r: bool)
    ensures
        r == is_blank(s@),
{
    let t = str_trim(s);
    proof {
        lemma_trim_empty_iff_blank(s@);
    }
    t.is_empty()
}

// ---------------------------------------------------------------------------
// Byte length
// ---------------------------------------------------------------------------

/// Length in bytes of the UTF-8 encoding of `s`, which `str::len` and
/// `String::len` report.
pub open spec fn byte_len(s: Seq<char>) -> nat {
    vstd::utf8::encode_utf8(s).len()
}

/// `str::len`: the length of the text in bytes, which a `usize` always holds.
#[verifier::external_body]
pub(crate) fn str_byte_len(s: &str) -> (r: usize)
    ensures
        r as nat == byte_len(s@),
{
    s.len()
}

/// Bytes in the UTF-8 encoding of `c`, as `char::len_utf8` reports them.
pub open spec fn utf8_width(c: char) -> nat {
    let u = c as u32;
    if u < 0x80 {
        1
    } else if u < 0x800 {
        2
    } else if u < 0x10000 {
        3
    } else {
        4
    }
}

/// `char::len_utf8`: the bytes needed to encode `c` in UTF-8.
pub fn char_utf8_len(c: char) -> (r: usize)
    ensures
        r == utf8_width(c),
{
    let u = c as u32;
    if u < 0x80 {
        1
    } else if u < 0x800 {
        2
    } else if u < 0x10000 {
        3
    } else {
        4
    }
}

/// Trimming never lengthens a text in bytes.
pub proof fn lemma_trim_bytes_within(s: Seq<char>)
    ensures
        byte_len(trim(s)) <= byte_len(s),
{
    lemma_trim_start_bytes(s);
    lemma_trim_end_bytes(trim_start(s));
}

proof fn lemma_trim_start_bytes(s: Seq<char>)
    ensures
        byte_len(trim_start(s)) <= byte_len(s),
    decreases s.len(),
{
    if s.len() > 0 && is_unicode_whitespace(s[0]) {
        lemma_trim_start_bytes(s.drop_first());
        assert(s =~= seq![s[0]] + s.drop_first());
        lemma_encode_concat(seq![s[0]], s.drop_first());
    }
}

proof fn lemma_trim_end_bytes(s: Seq<char>)
    ensures
        byte_len(trim_end(s)) <= byte_len(s),
    decreases s.len(),
{
    if s.len() > 0 && is_unicode_whitespace(s.last()) {
        lemma_trim_end_bytes(s.drop_last());
        assert(s =~= s.drop_last() + seq![s.last()]);
        lemma_encode_concat(s.drop_last(), seq![s.last()]);
    }
}

/// The encoding of a concatenation is the concatenation of the encodings.
pub proof fn lemma_encode_concat(a: Seq<char>, b: Seq<char>)
    ensures
        vstd::utf8::encode_utf8(a + b) == vstd::utf8::encode_utf8(a) + vstd::utf8::encode_utf8(b),
    decreases a.len(),
{
    if a.len() == 0 {
        assert(a + b =~= b);
        assert(vstd::utf8::encode_utf8(a) =~= Seq::<u8>::empty());
        assert(vstd::utf8::encode_utf8(a) + vstd::utf8::encode_utf8(b) =~= vstd::utf8::encode_utf8(b));
    } else {
        assert((a + b).drop_first() =~= a.drop_first() + b);
        assert((a + b)[0] == a[0]);
        lemma_encode_concat(a.drop_first(), b);
        assert(vstd::utf8::encode_utf8(a + b) =~= vstd::utf8::encode_utf8(a) + vstd::utf8::encode_utf8(b));
    }
}

/// One more character adds its UTF-8 width to the byte length of a prefix.
pub proof fn lemma_byte_len_take_next(s: Seq<char>, k: int)
    requires
        0 <= k < s.len(),
    ensures
        byte_len(s.take(k + 1)) == byte_len(s.take(k)) + utf8_width(s[k]),
{
    assert(s.take(k + 1) =~= s.take(k) + seq![s[k]]);
    lemma_encode_concat(s.take(k), seq![s[k]]);
    let one = seq![s[k]];
    assert(one.drop_first() =~= Seq::<char>::empty());
    assert(vstd::utf8::encode_utf8(one) =~= vstd::utf8::encode_scalar(s[k] as u32) + vstd::utf8::encode_utf8(Seq::<char>::empty()));
    vstd::utf8::char_is_scalar(s[k]);
}

// ---------------------------------------------------------------------------
// Character classes
// ---------------------------------------------------------------------------

/// General category `Cc` (control codes), which `char::is_control` tests.
pub open spec fn is_control_char(c: char) -> bool {
    let u = c as u32;
    u <= 0x1F || (0x7F <= u <= 0x9F)
}

/// `char::is_control`: general category `Cc`, that is U+0000..=U+001F and
/// U+007F..=U+009F.
pub fn is_control(c: char) -> (r: bool)
    ensures
        r == is_control_char(c),
{
    (c <= '\u{1F}') || ('\u{7F}' <= c && c <= '\u{9F}')
}

/// An ASCII decimal digit.
pub open spec fn is_digit_char(c: char) -> bool {
    '0' <= c <= '9'
}

/// The value of an ASCII decimal digit.
pub open spec fn digit_value(c: char) -> int {
    (c as int) - ('0' as int)
}

/// `char::to_digit(10)`: the value of an ASCII decimal digit, `None` for any
/// other character.
pub fn to_decimal_digit(c: char) -> (r: Option<u32>)
    ensures
        r == (if is_digit_char(c) {
            Some((digit_value(c)) as u32)
        } else {
            None::<u32>
        }),
{
    if '0' <= c && c <= '9' {
        Some((c as u32) - ('0' as u32))
    } else {
        None
    }
}

/// `char::is_alphanumeric`; its result is a property of the Unicode tables.
pub uninterp spec fn spec_is_alphanumeric(c: char) -> bool;

/// Calls `char::is_alphanumeric`, which reports whether the character is
/// alphabetic or numeric in the Unicode tables; the tables themselves are
/// not restated, the result is named by `spec_is_alphanumeric`. Among ASCII
/// characters exactly the letters and digits are alphanumeric.
#[verifier::external_body]
pub(crate) fn is_alphanumeric(c: char) -> (r: bool)
    ensures
        r == spec_is_alphanumeric(c),
        (c as u32) < 128 ==> (r <==> (('a' <= c && c <= 'z') || ('A' <= c && c <= 'Z') || ('0'
            <= c && c <= '9'))),
{
    c.is_alphanumeric()
}

/// First character of `char::to_lowercase`; a property of the Unicode
/// case tables.
pub uninterp spec fn spec_lowercase_first(c: char) -> char;

/// Calls `char::to_lowercase` and keeps its first character (or `c` itself
/// when the mapping is empty). The Unicode case tables are not restated; the
/// result is named by `spec_lowercase_first`.
#[verifier::external_body]
pub(crate) fn lowercase_first(c: char) -> (r: char)
    ensures
        r == spec_lowercase_first(c),
{
    c.to_lowercase().next().unwrap_or(c)
}

/// The text `char::to_uppercase` produces; a property of the Unicode case
/// tables.
pub uninterp spec fn spec_uppercase(c: char) -> Seq<char>;

/// Calls `char::to_uppercase` and collects the mapping into a string. The
/// Unicode case tables are not restated; the result is named by
/// `spec_uppercase`.
#[verifier::external_body]
pub(crate) fn uppercase_string(c: char) -> (r: String)
    ensures
        r@ == spec_uppercase(c),
{
    c.to_uppercase().to_string()
}

// ---------------------------------------------------------------------------
// Integers in decimal
// ---------------------------------------------------------------------------

/// The character of a digit value `0..=9`.
pub open spec fn digit_char(d: int) -> char {
    (d + ('0' as int)) as char
}

/// Decimal representation of a natural number, without leading zeros.
pub open spec fn decimal(n: nat) -> Seq<char>
    decreases n,
{
    if n < 10 {
        seq![digit_char(n as int)]
    } else {
        decimal(n / 10).push(digit_char((n % 10) as int))
    }
}

/// Decimal representation of an integer, with a leading `-` when negative.
pub open spec fn signed_decimal(i: int) -> Seq<char> {
    if i < 0 {
        seq!['-'] + decimal((-i) as nat)
    } else {
        decimal(i as nat)
    }
}

/// A decimal representation is ASCII, one byte per digit, and has no more
/// digits than the number (or one digit, for zero).
pub proof fn lemma_decimal_bytes(n: nat)
    ensures
        vstd::utf8::is_ascii_chars(decimal(n)),
        byte_len(decimal(n)) == decimal(n).len(),
        decimal(n).len() >= 1,
        decimal(n).len() <= if n == 0 {
            1
        } else {
            n
        },
    decreases n,
{
    if n >= 10 {
        lemma_decimal_bytes(n / 10);
    }
    assert(vstd::utf8::is_ascii_chars(decimal(n)));
    vstd::utf8::is_ascii_chars_encode_utf8(decimal(n));
}

/// `ToString` of an unsigned integer: its decimal representation.
#[verifier::external_body]
pub(crate) fn unsigned_to_string(n: u128) -> (r: String)
    ensures
        r@ == decimal(n as nat),
{
    n.to_string()
}

/// `ToString` of a signed integer: its decimal representation, with a
/// leading `-` when negative.
#[verifier::external_body]
pub(crate) fn signed_to_string(i: i128) -> (r: String)
    ensures
        r@ == signed_decimal(i as int),
{
    i.to_string()
}

/// All characters of `s` are ASCII decimal digits.
pub open spec fn all_digits(s: Seq<char>) -> bool {
    forall|i: int| 0 <= i < s.len() ==> is_digit_char(#[trigger] s[i])
}

/// The value of a sequence of decimal digits.
pub open spec fn digits_value(s: Seq<char>) -> nat
    decreases s.len(),
{
    if s.len() == 0 {
        0
    } else {
        (digits_value(s.drop_last()) * 10 + digit_value(s.last())) as nat
    }
}

/// The integer that `FromStr` for a signed type reads from `s`: an optional
/// `+` or `-` sign followed by one or more ASCII digits, and nothing else.
pub open spec fn parse_signed(s: Seq<char>) -> Option<int> {
    if s.len() > 0 && (s[0] == '+' || s[0] == '-') {
        let d = s.drop_first();
        if d.len() > 0 && all_digits(d) {
            if s[0] == '-' {
                Some(-(digits_value(d) as int))
            } else {
                Some(digits_value(d) as int)
            }
        } else {
            None
        }
    } else if s.len() > 0 && all_digits(s) {
        Some(digits_value(s) as int)
    } else {
        None
    }
}

/// The integer that `FromStr` for an unsigned type reads from `s`: an
/// optional `+` sign followed by one or more ASCII digits, and nothing else.
pub open spec fn parse_unsigned(s: Seq<char>) -> Option<int> {
    if s.len() > 0 && s[0] == '+' {
        let d = s.drop_first();
        if d.len() > 0 && all_digits(d) {
            Some(digits_value(d) as int)
        } else {
            None
        }
    } else if s.len() > 0 && all_digits(s) {
        Some(digits_value(s) as int)
    } else {
        None
    }
}

/// `str::parse::<i64>`: the signed decimal value when it has one that fits.
#[verifier::external_body]
pub(crate) fn parse_i64(s: &str) -> (r: Option<i64>)
    ensures
        r == (match parse_signed(s@) {
            Some(v) => if i64::MIN <= v <= i64::MAX {
                Some(v as i64)
            } else {
                None::<i64>
            },
            None => None::<i64>,
        }),
{
    s.parse::<i64>().ok()
}

/// `str::parse::<usize>`: the unsigned decimal value when it has one that
/// fits.
#[verifier::external_body]
pub(crate) fn parse_usize(s: &str) -> (r: Option<usize>)
    ensures
        r == (match parse_unsigned(s@) {
            Some(v) => if v <= usize::MAX {
                Some(v as usize)
            } else {
                None::<usize>
            },
            None => None::<usize>,
        }),
{
    s.parse::<usize>().ok()
}

// ---------------------------------------------------------------------------
// Building and inspecting strings
// ---------------------------------------------------------------------------

/// `String::push`: appends one character.
#[verifier::external_body]
pub(crate) fn string_push(s: &mut String, c: char)
    ensures
        final(s)@ == old(s)@.push(c),
{
    s.push(c);
}

/// `String::pop`: removes and returns the last character, if any.
#[verifier::external_body]
pub(crate) fn string_pop(s: &mut String) -> (r: Option<char>)
    ensures
        old(s)@.len() == 0 ==> r is None && final(s)@ == old(s)@,
        old(s)@.len() > 0 ==> r == Some(old(s)@.last()) && final(s)@ == old(s)@.drop_last(),
{
    s.pop()
}

/// `needle` occurs in `hay` as a contiguous run.
pub open spec fn contains(hay: Seq<char>, needle: Seq<char>) -> bool {
    exists|i: int|
        0 <= i && i + needle.len() <= hay.len() && #[trigger] hay.subrange(i, i + needle.len())
            == needle
}

/// `str::contains` with a string pattern: whether `needle` occurs in `hay`.
#[verifier::external_body]
pub(crate) fn str_contains(hay: &str, needle: &str) -> (r: bool)
    ensures
        r == contains(hay@, needle@),
{
    hay.contains(needle)
}

/// Text equality (`PartialEq` for `str`).
#[verifier::external_body]
pub(crate) fn str_eq(a: &str, b: &str) -> (r: bool)
    ensures
        r == (a@ == b@),
{
    a == b
}

/// The text of `s` as an owned string.
pub fn owned(s: &str) -> (r: String)
    ensures
        r@ == s@,
{
    s.to_owned()
}

/// `n` copies of `c`.
pub open spec fn repeat_char(c: char, n: nat) -> Seq<char> {
    Seq::new(n, |i: int| c)
}

/// `n` copies of `c`, as `str::repeat` on a one-character string builds it.
pub fn repeat(c: char, n: usize) -> (r: String)
    ensures
        r@ == repeat_char(c, n as nat),
{
    let mut r = String::new();
    let mut i: usize = 0;
    while i < n
        invariant
            i <= n,
            r@ == repeat_char(c, i as nat),
        decreases n - i,
    {
        string_push(&mut r, c);
        i = i + 1;
        assert(r@ =~= repeat_char(c, i as nat));
    }
    r
}

/// `text` between square brackets.
pub open spec fn bracketed(text: Seq<char>) -> Seq<char> {
    seq!['['] + text + seq![']']
}

/// A character between square brackets, as `format!("[{}]", c)` writes it.
pub fn bracket_char(c: char) -> (r: String)
    ensures
        r@ == bracketed(seq![c]),
{
    let mut r = String::new();
    string_push(&mut r, '[');
    string_push(&mut r, c);
    string_push(&mut r, ']');
    assert(r@ =~= bracketed(seq![c]));
    r
}

/// A text between square brackets.
pub fn bracket_str(text: &str) -> (r: String)
    ensures
        r@ == bracketed(text@),
{
    let mut r = String::new();
    string_push(&mut r, '[');
    r.append(text);
    string_push(&mut r, ']');
    assert(r@ =~= bracketed(text@));
    r
}

/// Concatenation of two texts.
pub fn concat2(a: &str, b: &str) -> (r: String)
    ensures
        r@ == a@ + b@,
{
    let mut r = owned(a);
    r.append(b);
    r
}

/// Concatenation of three texts.
pub fn concat3(a: &str, b: &str, c: &str) -> (r: String)
    ensures
        r@ == a@ + b@ + c@,
{
    let mut r = owned(a);
    r.append(b);
    r.append(c);
    r
}


// ---------------------------------------------------------------------------
// Byte positions in a text
// ---------------------------------------------------------------------------

/// Byte position `b` of `s` lies between two characters (or at either end).
pub open spec fn is_boundary(s: Seq<char>, b: int) -> bool {
    exists|k: int| 0 <= k <= s.len() && #[trigger] byte_len(s.take(k)) == b
}

/// The number of characters before byte position `b` of `s`.
pub open spec fn boundary_index(s: Seq<char>, b: int) -> int {
    choose|k: int| 0 <= k <= s.len() && #[trigger] byte_len(s.take(k)) == b
}

/// Every character takes at least one byte: the byte position of a character
/// index grows with the index.
pub proof fn lemma_byte_len_take_strict(s: Seq<char>, i: int, j: int)
    requires
        0 <= i < j <= s.len(),
    ensures
        byte_len(s.take(i)) < byte_len(s.take(j)),
    decreases j - i,
{
    lemma_byte_len_take_next(s, j - 1);
    if i < j - 1 {
        lemma_byte_len_take_strict(s, i, j - 1);
    }
}

/// The character index of a byte boundary is unique.
pub proof fn lemma_boundary_index(s: Seq<char>, k: int)
    requires
        0 <= k <= s.len(),
    ensures
        is_boundary(s, byte_len(s.take(k)) as int),
        boundary_index(s, byte_len(s.take(k)) as int) == k,
{
    let b = byte_len(s.take(k)) as int;
    assert(0 <= k <= s.len() && byte_len(s.take(k)) == b);
    let j = boundary_index(s, b);
    if j < k {
        lemma_byte_len_take_strict(s, j, k);
    } else if j > k {
        lemma_byte_len_take_strict(s, k, j);
    }
}

/// `String::insert`: inserts `c` at byte position `idx`, which must lie
/// between two characters.
#[verifier::external_body]
pub(crate) fn string_insert(s: &mut String, idx: usize, c: char)
    requires
        is_boundary(old(s)@, idx as int),
    ensures
        final(s)@ == old(s)@.take(boundary_index(old(s)@, idx as int)).push(c) + old(s)@.skip(
            boundary_index(old(s)@, idx as int),
        ),
{
    s.insert(idx, c);
}

/// `String::remove`: removes and returns the character that starts at byte
/// position `idx`.
#[verifier::external_body]
pub(crate) fn string_remove(s: &mut String, idx: usize) -> (r: char)
    requires
        is_boundary(old(s)@, idx as int),
        boundary_index(old(s)@, idx as int) < old(s)@.len(),
    ensures
        r == old(s)@[boundary_index(old(s)@, idx as int)],
        final(s)@ == old(s)@.take(boundary_index(old(s)@, idx as int)) + old(s)@.skip(
            boundary_index(old(s)@, idx as int) + 1,
        ),
{
    s.remove(idx)
}

/// `String::split_off`: keeps the text before byte position `at` and returns
/// the rest.
#[verifier::external_body]
pub(crate) fn string_split_off(s: &mut String, at: usize) -> (r: String)
    requires
        is_boundary(old(s)@, at as int),
    ensures
        final(s)@ == old(s)@.take(boundary_index(old(s)@, at as int)),
        r@ == old(s)@.skip(boundary_index(old(s)@, at as int)),
{
    s.split_off(at)
}

// ---------------------------------------------------------------------------
// Lines of a text
// ---------------------------------------------------------------------------

/// The pieces of `s` between `\n` characters, as `str::split('\n')` gives
/// them.
pub open spec fn split_newlines(s: Seq<char>) -> Seq<Seq<char>>
    decreases s.len(),
{
    if s.len() == 0 {
        seq![Seq::<char>::empty()]
    } else {
        let rest = split_newlines(s.drop_last());
        if s.last() == '\n' {
            rest.push(Seq::<char>::empty())
        } else {
            rest.update(rest.len() - 1, rest.last().push(s.last()))
        }
    }
}

/// A line without the carriage return that ended it.
pub open spec fn strip_cr(line: Seq<char>) -> Seq<char> {
    if line.len() > 0 && line.last() == '\r' {
        line.drop_last()
    } else {
        line
    }
}

/// The lines of `s`, as `str::lines` gives them: split at `\n` or `\r\n`, the
/// terminators dropped, and no empty line after a final terminator.
pub open spec fn lines_of(s: Seq<char>) -> Seq<Seq<char>> {
    let parts = split_newlines(s);
    let ended = parts.drop_last().map_values(|l: Seq<char>| strip_cr(l));
    if s.len() == 0 || s.last() == '\n' {
        ended
    } else {
        ended.push(parts.last())
    }
}

/// There is always at least one piece.
proof fn lemma_split_newlines_len(s: Seq<char>)
    ensures
        split_newlines(s).len() >= 1,
    decreases s.len(),
{
    if s.len() > 0 {
        lemma_split_newlines_len(s.drop_last());
    }
}

/// `str::lines` collected into owned strings.
pub fn str_lines(s: &str) -> (r: Vec<String>)
    ensures
        r@.map_values(|l: String| l@) == lines_of(s@),
{
    let mut lines: Vec<String> = Vec::new();
    let mut current = String::new();
    let ghost mut k: int = 0;
    for ch in iter: s.chars()
        invariant
            iter.seq() == s@,
            k == iter.index(),
            split_newlines(s@.take(k)).len() >= 1,
            lines@.map_values(|l: String| l@) == split_newlines(s@.take(k)).drop_last().map_values(
                |l: Seq<char>| strip_cr(l),
            ),
            current@ == split_newlines(s@.take(k)).last(),
    {
        proof {
            assert(s@.take(k + 1).drop_last() =~= s@.take(k));
            assert(s@.take(k + 1).last() == ch);
            lemma_split_newlines_len(s@.take(k));
        }
        if ch == '\n' {
            let mut line = current;
            if !line.as_str().is_empty() {
                let last = string_pop(&mut line);
                if last != Some('\r') {
                    match last {
                        Some(c) => string_push(&mut line, c),
                        None => {},
                    }
                }
            }
            proof {
                let p = split_newlines(s@.take(k));
                assert(split_newlines(s@.take(k + 1)) == p.push(Seq::<char>::empty()));
                assert(line@ == strip_cr(p.last()));
                assert(p.push(Seq::<char>::empty()).drop_last() =~= p);
                assert(p =~= p.drop_last().push(p.last()));
            }
            let ghost before = lines@;
            let ghost lv = line@;
            lines.push(line);
            current = String::new();
            proof {
                let p = split_newlines(s@.take(k));
                let m = lines@.map_values(|l: String| l@);
                let target = p.map_values(|l: Seq<char>| strip_cr(l));
                let prev = before.map_values(|l: String| l@);
                assert(prev == p.drop_last().map_values(|l: Seq<char>| strip_cr(l)));
                assert(lines@ == before.push(lines@.last()));
                assert(lines@.last()@ == lv);
                assert(prev.len() == before.len());
                assert(prev.len() == p.drop_last().len());
                assert(before.len() + 1 == p.len());
                assert(m.len() == target.len());
                assert forall|i: int| 0 <= i < m.len() implies m[i] == target[i] by {
                    if i < before.len() {
                        assert(m[i] == before[i]@);
                        assert(prev[i] == before[i]@);
                        assert(p.drop_last()[i] == p[i]);
                    } else {
                        assert(i == p.len() - 1);
                    }
                }
                assert(m =~= target);
            }
        } else {
            string_push(&mut current, ch);
            proof {
                let p = split_newlines(s@.take(k));
                let q = split_newlines(s@.take(k + 1));
                assert(q == p.update(p.len() - 1, p.last().push(ch)));
                assert(q.drop_last() =~= p.drop_last());
            }
        }
        proof {
            k = k + 1;
        }
    }
    proof {
        assert(s@.take(k) =~= s@);
        lemma_split_newlines_len(s@);
    }
    if !current.as_str().is_empty() {
        lines.push(current);
    }
    proof {
        let p = split_newlines(s@);
        if s@.len() > 0 && s@.last() != '\n' {
            lemma_split_newlines_len(s@.drop_last());
            assert(p.last().len() > 0);
        }
        if s@.len() == 0 {
            assert(p =~= seq![Seq::<char>::empty()]);
        }
        if s@.len() > 0 && s@.last() == '\n' {
            assert(p.last() =~= Seq::<char>::empty());
        }
        assert(lines@.map_values(|l: String| l@) =~= lines_of(s@));
    }
    lines
}

/// The texts of `lines` joined with `sep` between them.
pub open spec fn join_with(lines: Seq<Seq<char>>, sep: Seq<char>) -> Seq<char>
    decreases lines.len(),
{
    if lines.len() == 0 {
        Seq::<char>::empty()
    } else if lines.len() == 1 {
        lines[0]
    } else {
        join_with(lines.drop_last(), sep) + sep + lines.last()
    }
}

/// `[String]::join`: the texts of `lines` with `sep` between them.
pub fn join_strings(lines: &Vec<String>, sep: &str) -> (r: String)
    ensures
        r@ == join_with(lines@.map_values(|l: String| l@), sep@),
{
    let mut r = String::new();
    let mut i: usize = 0;
    while i < lines.len()
        invariant
            i <= lines.len(),
            r@ == join_with(lines@.take(i as int).map_values(|l: String| l@), sep@),
        decreases lines.len() - i,
    {
        if i > 0 {
            r.append(sep);
        }
        r.append(lines[i].as_str());
        proof {
            let next = lines@.take(i + 1).map_values(|l: String| l@);
            assert(next.drop_last() =~= lines@.take(i as int).map_values(|l: String| l@));
            assert(next.last() == lines@[i as int]@);
            if i == 0 {
                assert(next =~= seq![lines@[0]@]);
            }
        }
        i = i + 1;
    }
    proof {
        assert(lines@.take(lines.len() as int) =~= lines@);
    }
    r
}


/// Byte lengths of prefixes grow with their length.
pub proof fn lemma_byte_len_take_mono(s: Seq<char>, i: int, j: int)
    requires
        0 <= i <= j <= s.len(),
    ensures
        byte_len(s.take(i)) <= byte_len(s.take(j)),
{
    if i < j {
        lemma_byte_len_take_strict(s, i, j);
    }
}

/// The number of characters before byte position `b` of `s`, where `b` lies
/// between two characters; `None` where it does not.
pub fn char_index_at(s: &str, b: usize) -> (r: Option<usize>)
    ensures
        r is Some <==> is_boundary(s@, b as int),
        r matches Some(k) ==> k == boundary_index(s@, b as int),
{
    proof {
        assert(s@.take(0) =~= Seq::<char>::empty());
        assert(byte_len(Seq::<char>::empty()) == 0);
    }
    if b == 0 {
        proof {
            lemma_boundary_index(s@, 0);
        }
        return Some(0);
    }
    let mut pos: usize = 0;
    let mut k: usize = 0;
    for ch in iter: s.chars()
        invariant
            iter.seq() == s@,
            k == iter.index(),
            pos as nat == byte_len(s@.take(k as int)),
            pos < b,
            k <= pos,
    {
        proof {
            lemma_byte_len_take_next(s@, k as int);
        }
        let w = char_utf8_len(ch);
        if w >= b - pos {
            if w == b - pos {
                proof {
                    lemma_boundary_index(s@, k + 1);
                }
                return Some(k + 1);
            } else {
                proof {
                    assert forall|j: int| 0 <= j <= s@.len() implies #[trigger] byte_len(s@.take(j))
                        != b by {
                        if j <= k {
                            lemma_byte_len_take_mono(s@, j, k as int);
                        } else {
                            lemma_byte_len_take_mono(s@, k + 1, j);
                        }
                    }
                }
                return None;
            }
        }
        pos = pos + w;
        k = k + 1;
    }
    proof {
        assert(s@.take(k as int) =~= s@);
        assert forall|j: int| 0 <= j <= s@.len() implies #[trigger] byte_len(s@.take(j)) != b by {
            lemma_byte_len_take_mono(s@, j, k as int);
        }
    }
    None
}


// ---------------------------------------------------------------------------
// Ordering of texts
// ---------------------------------------------------------------------------

/// `a` sorts before or equal to `b` as `str`'s `Ord` orders them: byte by
/// byte in UTF-8, which orders as character by character by scalar value.
pub open spec fn text_leq(a: Seq<char>, b: Seq<char>) -> bool
    decreases a.len(),
{
    if a.len() == 0 {
        true
    } else if b.len() == 0 {
        false
    } else if a[0] != b[0] {
        (a[0] as u32) < (b[0] as u32)
    } else {
        text_leq(a.drop_first(), b.drop_first())
    }
}

/// The order of texts as a relation.
pub open spec fn text_order() -> spec_fn(Seq<char>, Seq<char>) -> bool {
    |a: Seq<char>, b: Seq<char>| text_leq(a, b)
}

proof fn lemma_text_leq_reflexive(a: Seq<char>)
    ensures
        text_leq(a, a),
    decreases a.len(),
{
    if a.len() > 0 {
        lemma_text_leq_reflexive(a.drop_first());
    }
}

proof fn lemma_text_leq_antisymmetric(a: Seq<char>, b: Seq<char>)
    requires
        text_leq(a, b),
        text_leq(b, a),
    ensures
        a == b,
    decreases a.len(),
{
    if a.len() > 0 && b.len() > 0 {
        if a[0] == b[0] {
            lemma_text_leq_antisymmetric(a.drop_first(), b.drop_first());
            assert(a =~= seq![a[0]] + a.drop_first());
            assert(b =~= seq![b[0]] + b.drop_first());
        } else {
            crate::text::lemma_char_u32_injective(a[0], b[0]);
        }
    } else {
        assert(a =~= b);
    }
}

/// Distinct characters have distinct scalar values.
proof fn lemma_char_u32_injective(x: char, y: char)
    requires
        x != y,
    ensures
        (x as u32) != (y as u32),
{
}

proof fn lemma_text_leq_transitive(a: Seq<char>, b: Seq<char>, c: Seq<char>)
    requires
        text_leq(a, b),
        text_leq(b, c),
    ensures
        text_leq(a, c),
    decreases a.len(),
{
    if a.len() > 0 && b.len() > 0 && c.len() > 0 {
        if a[0] == b[0] && b[0] == c[0] {
            lemma_text_leq_transitive(a.drop_first(), b.drop_first(), c.drop_first());
        } else {
            lemma_char_u32_injective_or_equal(a[0], b[0]);
            lemma_char_u32_injective_or_equal(b[0], c[0]);
            lemma_char_u32_injective_or_equal(a[0], c[0]);
        }
    }
}

/// Characters are equal exactly when their scalar values are.
proof fn lemma_char_u32_injective_or_equal(x: char, y: char)
    ensures
        (x == y) == ((x as u32) == (y as u32)),
{
}

proof fn lemma_text_leq_total(a: Seq<char>, b: Seq<char>)
    ensures
        text_leq(a, b) || text_leq(b, a),
    decreases a.len(),
{
    if a.len() > 0 && b.len() > 0 {
        if a[0] == b[0] {
            lemma_text_leq_total(a.drop_first(), b.drop_first());
        } else {
            lemma_char_u32_injective(a[0], b[0]);
        }
    }
}

/// The order of texts is a total order.
pub proof fn lemma_text_order_total()
    ensures
        vstd::relations::total_ordering(text_order()),
{
    assert forall|a: Seq<char>| #[trigger] text_order()(a, a) by {
        lemma_text_leq_reflexive(a);
    }
    assert forall|a: Seq<char>, b: Seq<char>|
        #[trigger] text_order()(a, b) && #[trigger] text_order()(b, a) implies a == b by {
        lemma_text_leq_antisymmetric(a, b);
    }
    assert forall|a: Seq<char>, b: Seq<char>, c: Seq<char>|
        #[trigger] text_order()(a, b) && #[trigger] text_order()(b, c) implies text_order()(a, c) by {
        lemma_text_leq_transitive(a, b, c);
    }
    assert forall|a: Seq<char>, b: Seq<char>|
        #[trigger] text_order()(a, b) || #[trigger] text_order()(b, a) by {
        lemma_text_leq_total(a, b);
    }
}

/// The characters of a text.
pub fn chars_of(s: &str) -> (r: Vec<char>)
    ensures
        r@ == s@,
{
    let mut r: Vec<char> = Vec::new();
    for c in iter: s.chars()
        invariant
            iter.seq() == s@,
            r@ == s@.take(iter.index() as int),
    {
        proof {
            assert(s@.take(iter.index() + 1) =~= s@.take(iter.index() as int).push(c));
        }
        r.push(c);
    }
    proof {
        assert(s@.take(s@.len() as int) =~= s@);
    }
    r
}

/// Whether `a` sorts before or equal to `b` (`a <= b` for `str`).
pub fn text_le(a: &str, b: &str) -> (r: bool)
    ensures
        r == text_leq(a@, b@),
{
    let x = chars_of(a);
    let y = chars_of(b);
    let mut i: usize = 0;
    proof {
        assert(a@.skip(0) =~= a@);
        assert(b@.skip(0) =~= b@);
    }
    while i < x.len() && i < y.len() && x[i] == y[i]
        invariant
            i <= x.len(),
            i <= y.len(),
            x@ == a@,
            y@ == b@,
            text_leq(a@, b@) == text_leq(a@.skip(i as int), b@.skip(i as int)),
        decreases x.len() - i,
    {
        proof {
            let p = a@.skip(i as int);
            let q = b@.skip(i as int);
            assert(p[0] == q[0]);
            assert(p.drop_first() =~= a@.skip(i + 1));
            assert(q.drop_first() =~= b@.skip(i + 1));
        }
        i = i + 1;
    }
    if i == x.len() {
        true
    } else if i == y.len() {
        false
    } else {
        proof {
            assert(a@.skip(i as int)[0] == x@[i as int]);
            assert(b@.skip(i as int)[0] == y@[i as int]);
        }
        (x[i] as u32) < (y[i] as u32)
    }
}

/// The texts of `v` sorted (`<[String]>::sort`): the same texts in the order
/// of [`text_leq`].
pub fn sort_texts(v: Vec<String>) -> (r: Vec<String>)
    ensures
        r@.map_values(|s: String| s@) == v@.map_values(|s: String| s@).sort_by(text_order()),
{
    let ghost input = v@.map_values(|s: String| s@);
    let mut out: Vec<String> = Vec::new();
    let mut i: usize = 0;
    proof {
        lemma_text_order_total();
        assert(out@.map_values(|s: String| s@) =~= Seq::<Seq<char>>::empty());
        assert(input.take(0) =~= Seq::<Seq<char>>::empty());
    }
    while i < v.len()
        invariant
            i <= v.len(),
            input == v@.map_values(|s: String| s@),
            vstd::relations::total_ordering(text_order()),
            vstd::relations::sorted_by(out@.map_values(|s: String| s@), text_order()),
            out@.map_values(|s: String| s@).to_multiset() == input.take(i as int).to_multiset(),
        decreases v.len() - i,
    {
        let x = &v[i];
        let ghost ov = out@.map_values(|s: String| s@);
        let mut j: usize = 0;
        while j < out.len() && text_le(out[j].as_str(), x.as_str())
            invariant
                j <= out.len(),
                ov == out@.map_values(|s: String| s@),
                forall|k: int| 0 <= k < j ==> text_leq(#[trigger] ov[k], x@),
            decreases out.len() - j,
        {
            proof {
                assert(ov[j as int] == out@[j as int]@);
            }
            j = j + 1;
        }
        proof {
            if j < out.len() {
                assert(ov[j as int] == out@[j as int]@);
                assert(!text_leq(ov[j as int], x@));
                lemma_text_leq_total(ov[j as int], x@);
            }
        }
        out.insert(j, x.clone());
        proof {
            let nv = out@.map_values(|s: String| s@);
            assert(nv =~= ov.insert(j as int, x@));
            vstd::seq_lib::to_multiset_insert(ov, j as int, x@);
            assert(input.take(i + 1) =~= input.take(i as int).push(x@));
            vstd::seq_lib::to_multiset_build(input.take(i as int), x@);
            assert(nv.to_multiset() =~= input.take(i + 1).to_multiset());
            assert forall|a: int, b: int| 0 <= a < b < nv.len() implies #[trigger] text_order()(
                nv[a],
                nv[b],
            ) by {
                if b < j {
                    assert(nv[a] == ov[a] && nv[b] == ov[b]);
                } else if b == j {
                    assert(nv[a] == ov[a] && nv[b] == x@);
                } else if a < j {
                    assert(nv[a] == ov[a] && nv[b] == ov[b - 1]);
                } else if a == j {
                    assert(nv[a] == x@ && nv[b] == ov[b - 1]);
                    assert(text_order()(ov[j as int], ov[b - 1]) || j as int == b - 1);
                    if j as int == b - 1 {
                        assert(text_leq(x@, ov[j as int]));
                    } else {
                        assert(text_leq(x@, ov[j as int]));
                        lemma_text_leq_transitive(x@, ov[j as int], ov[b - 1]);
                    }
                } else {
                    assert(nv[a] == ov[a - 1] && nv[b] == ov[b - 1]);
                }
            }
        }
        i = i + 1;
    }
    proof {
        assert(input.take(v.len() as int) =~= input);
        input.lemma_sort_by_ensures(text_order());
        vstd::seq_lib::lemma_sorted_unique(
            out@.map_values(|s: String| s@),
            input.sort_by(text_order()),
            text_order(),
        );
    }
    out
}


/// `s` begins with `prefix`.
pub open spec fn starts_with(s: Seq<char>, prefix: Seq<char>) -> bool {
    prefix.len() <= s.len() && s.take(prefix.len() as int) == prefix
}

/// `str::starts_with` for a text prefix.
pub fn str_starts_with(s: &str, prefix: &str) -> (r: bool)
    ensures
        r == starts_with(s@, prefix@),
{
    let x = chars_of(s);
    let p = chars_of(prefix);
    if p.len() > x.len() {
        return false;
    }
    let mut i: usize = 0;
    while i < p.len()
        invariant
            i <= p.len() <= x.len(),
            x@ == s@,
            p@ == prefix@,
            forall|k: int| 0 <= k < i ==> x@[k] == p@[k],
        decreases p.len() - i,
    {
        if x[i] != p[i] {
            proof {
                assert(s@.take(prefix@.len() as int)[i as int] != prefix@[i as int]);
            }
            return false;
        }
        i = i + 1;
    }
    proof {
        assert(s@.take(prefix@.len() as int) =~= prefix@);
    }
    true
}

/// The lowercase form of a text, as `str::to_lowercase` produces it; a
/// property of the Unicode case tables.
pub uninterp spec fn spec_lowercase(s: Seq<char>) -> Seq<char>;

/// Calls `str::to_lowercase`. The Unicode case tables are not restated; the
/// result is named by `spec_lowercase`.
#[verifier::external_body]
pub(crate) fn lowercase_text(s: &str) -> (r: String)
    ensures
        r@ == spec_lowercase(s@),
{
    s.to_lowercase()
}

} // verus!
