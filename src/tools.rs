//! The dashboard's small utilities: the clock, the password generator and
//! the text tools. Each page here is open to every signed-in user.

use vstd::prelude::*;
use vstd::string::*;
use vstd::utf8::{decode_utf8, encode_utf8, valid_utf8};
use crate::primitives::{
    base64_decode, base64_decoded, base64_encode, base64_of, random_below, sha256_hex, sha256_hex_of,
    sha512_hex, sha512_hex_of, string_from_utf8, url_decode, url_decoded_of, url_encode,
    url_encoded_of,
};
use crate::text::{digit_char, digit_str, str_eq};

verus! {

broadcast use vstd::utf8::group_utf8_lib;

// ------------------------------------------------------------------ clock

pub const SECONDS_PER_DAY: u64 = 86400;

/// Japan Standard Time is nine hours ahead of UTC.
pub const JST_OFFSET_SECONDS: u64 = 32400;

/// `n`, below one hundred, as two digits.
pub open spec fn two_digits(n: nat) -> Seq<char> {
    seq![digit_char(n / 10), digit_char(n % 10)]
}

/// `HH:MM:SS` for the second `s` of a day.
pub open spec fn clock_of(s: nat) -> Seq<char> {
    two_digits(s / 3600) + ":"@ + two_digits((s % 3600) / 60) + ":"@ + two_digits(s % 60)
}

fn two_digit_text(n: u64) -> (r: String)
    requires
        n < 100,
    ensures
        r@ == two_digits(n as nat),
{
    let tens = String::from_str(digit_str((n / 10) as usize));
    let r = tens.concat(digit_str((n % 10) as usize));
    assert(r@ =~= two_digits(n as nat));
    r
}

fn clock_text(s: u64) -> (r: String)
    requires
        s < SECONDS_PER_DAY,
    ensures
        r@ == clock_of(s as nat),
{
    let mut out = two_digit_text(s / 3600);
    out.append(":");
    out.append(two_digit_text((s % 3600) / 60).as_str());
    out.append(":");
    out.append(two_digit_text(s % 60).as_str());
    out
}

/// The clock page: a Unix time and its time of day in UTC and in JST.
pub struct TimeTemplate {
    pub unix: u64,
    pub utc: String,
    pub jst: String,
}

impl TimeTemplate {
    /// The clock page for the Unix time `unix`, in seconds.
    pub fn at(unix: u64) -> (r: TimeTemplate)
        ensures
            r.unix == unix,
            r.utc@ == clock_of((unix % SECONDS_PER_DAY) as nat),
            r.jst@ == clock_of(((unix % SECONDS_PER_DAY + JST_OFFSET_SECONDS) as int % SECONDS_PER_DAY as int) as nat),
    {
        let utc_secs = unix % SECONDS_PER_DAY;
        let jst_secs = (utc_secs + JST_OFFSET_SECONDS) % SECONDS_PER_DAY;
        TimeTemplate { unix, utc: clock_text(utc_secs), jst: clock_text(jst_secs) }
    }
}

// ----------------------------------------------------- password generator

pub const DEFAULT_PASSWORD_LEN: usize = 16;

pub const MIN_GENERATED_LEN: usize = 4;

pub const MAX_GENERATED_LEN: usize = 128;

/// The submitted generator form; a checkbox is present when ticked.
pub struct PasswordGenForm {
    pub length: Option<usize>,
    pub include_uppercase: Option<String>,
    pub include_lowercase: Option<String>,
    pub include_numbers: Option<String>,
    pub include_symbols: Option<String>,
}

/// The generator page.
pub struct PasswordGenTemplate {
    pub username: String,
    pub generated_password: String,
    pub show_password: bool,
}

impl PasswordGenTemplate {
    /// The page before anything is generated.
    pub fn blank(username: String) -> (r: PasswordGenTemplate)
        ensures
            r.username@ == username@,
            r.generated_password@.len() == 0,
            !r.show_password,
    {
        PasswordGenTemplate { username, generated_password: String::new(), show_password: false }
    }
}

/// The length asked for, 16 by default, held to 4 ..= 128.
pub open spec fn generated_len(asked: Option<usize>) -> nat {
    let n = match asked {
        Some(n) => n as nat,
        None => DEFAULT_PASSWORD_LEN as nat,
    };
    if n < MIN_GENERATED_LEN {
        MIN_GENERATED_LEN as nat
    } else if n > MAX_GENERATED_LEN {
        MAX_GENERATED_LEN as nat
    } else {
        n
    }
}

pub open spec fn upper_chars() -> Seq<char> {
    "ABCDEFGHIJKLMNOPQRSTUVWXYZ"@
}

pub open spec fn lower_chars() -> Seq<char> {
    "abcdefghijklmnopqrstuvwxyz"@
}

pub open spec fn digit_chars() -> Seq<char> {
    "0123456789"@
}

pub open spec fn symbol_chars() -> Seq<char> {
    "!@#$%^&*()-_=+[]{}|;:,.<>?"@
}

/// The characters a password is drawn from: the ticked groups in order, or
/// lowercase letters and digits where none is ticked.
pub open spec fn charset_for(upper: bool, lower: bool, numbers: bool, symbols: bool) -> Seq<char> {
    let picked = (if upper { upper_chars() } else { Seq::empty() }) + (if lower {
        lower_chars()
    } else {
        Seq::empty()
    }) + (if numbers { digit_chars() } else { Seq::empty() }) + (if symbols {
        symbol_chars()
    } else {
        Seq::empty()
    });
    if picked.len() == 0 {
        lower_chars() + digit_chars()
    } else {
        picked
    }
}

/// The character set for the ticked groups.
pub fn password_charset(upper: bool, lower: bool, numbers: bool, symbols: bool) -> (r: String)
    ensures
        r@ == charset_for(upper, lower, numbers, symbols),
        r@.len() > 0,
{
    let mut set = String::new();
    if upper {
        set.append("ABCDEFGHIJKLMNOPQRSTUVWXYZ");
    }
    if lower {
        set.append("abcdefghijklmnopqrstuvwxyz");
    }
    if numbers {
        set.append("0123456789");
    }
    if symbols {
        set.append("!@#$%^&*()-_=+[]{}|;:,.<>?");
    }
    proof {
        reveal_strlit("abcdefghijklmnopqrstuvwxyz");
        reveal_strlit("0123456789");
        assert(set@ =~= (if upper { upper_chars() } else { Seq::empty() }) + (if lower {
            lower_chars()
        } else {
            Seq::empty()
        }) + (if numbers { digit_chars() } else { Seq::empty() }) + (if symbols {
            symbol_chars()
        } else {
            Seq::empty()
        }));
    }
    if set.as_str().unicode_len() == 0 {
        set = String::from_str("abcdefghijklmnopqrstuvwxyz");
        set.append("0123456789");
    }
    set
}

/// Generates a password of the asked length from the ticked character
/// groups, each character drawn at random from the set.
pub fn generate_password(username: String, form: &PasswordGenForm) -> (r: PasswordGenTemplate)
    ensures
        r.username@ == username@,
        r.show_password,
        r.generated_password@.len() == generated_len(form.length),
        forall|i: int|
            0 <= i < r.generated_password@.len() ==> charset_for(
                form.include_uppercase is Some,
                form.include_lowercase is Some,
                form.include_numbers is Some,
                form.include_symbols is Some,
            ).contains(#[trigger] r.generated_password@[i]),
{
    let asked = match form.length {
        Some(n) => n,
        None => DEFAULT_PASSWORD_LEN,
    };
    let len = if asked < MIN_GENERATED_LEN {
        MIN_GENERATED_LEN
    } else if asked > MAX_GENERATED_LEN {
        MAX_GENERATED_LEN
    } else {
        asked
    };
    let set = password_charset(
        form.include_uppercase.is_some(),
        form.include_lowercase.is_some(),
        form.include_numbers.is_some(),
        form.include_symbols.is_some(),
    );
    let ghost chars = set@;
    let n = set.as_str().unicode_len();
    let mut password = String::new();
    let mut i: usize = 0;
    while i < len
        invariant
            i <= len,
            n == chars.len(),
            n > 0,
            set@ == chars,
            password@.len() == i,
            forall|j: int| 0 <= j < i ==> chars.contains(#[trigger] password@[j]),
        decreases len - i,
    {
        let k = random_below(n);
        let piece = set.as_str().substring_char(k, k + 1);
        let ghost before = password@;
        password.append(piece);
        proof {
            assert(piece@ =~= seq![chars[k as int]]);
            assert(password@[i as int] == chars[k as int]);
            assert forall|j: int| 0 <= j < i + 1 implies chars.contains(#[trigger] password@[j]) by {
                if j < i {
                    assert(password@[j] == before[j]);
                }
            }
        }
        i = i + 1;
    }
    PasswordGenTemplate { username, generated_password: password, show_password: true }
}

// ------------------------------------------------------------- text tools

/// The submitted text tools form.
pub struct TextToolsForm {
    pub operation: String,
    pub input_text: String,
}

/// The text tools page.
pub struct TextToolsTemplate {
    pub username: String,
    pub result: String,
    pub error: String,
    pub show_result: bool,
    pub show_error: bool,
}

impl TextToolsTemplate {
    /// The page before anything is processed.
    pub fn blank(username: String) -> (r: TextToolsTemplate)
        ensures
            r.username@ == username@,
            r.result@.len() == 0 && r.error@.len() == 0,
            !r.show_result && !r.show_error,
    {
        TextToolsTemplate {
            username,
            result: String::new(),
            error: String::new(),
            show_result: false,
            show_error: false,
        }
    }
}

/// What a text tool makes of its input: the text to show, or an error.
pub open spec fn text_tool_result(operation: Seq<char>, input: Seq<char>) -> Result<Seq<char>, Seq<char>> {
    if operation == "base64_encode"@ {
        if encode_utf8(input).len() <= usize::MAX / 2 {
            Ok(base64_of(encode_utf8(input)))
        } else {
            Err("Input too long"@)
        }
    } else if operation == "base64_decode"@ {
        match base64_decoded(input) {
            None => Err("Invalid base64 input"@),
            Some(bytes) => if valid_utf8(bytes) {
                Ok(decode_utf8(bytes))
            } else {
                Err("Decoded bytes are not valid UTF-8 text"@)
            },
        }
    } else if operation == "url_encode"@ {
        Ok(url_encoded_of(input))
    } else if operation == "url_decode"@ {
        match url_decoded_of(input) {
            None => Err("Invalid URL-encoded input"@),
            Some(t) => Ok(t),
        }
    } else if operation == "sha256"@ {
        Ok(sha256_hex_of(encode_utf8(input)))
    } else if operation == "sha512"@ {
        Ok(sha512_hex_of(encode_utf8(input)))
    } else {
        Err("Invalid operation"@)
    }
}

fn tool_result(operation: &str, input: &str) -> (r: Result<String, &'static str>)
    ensures
        match text_tool_result(operation@, input@) {
            Ok(t) => r matches Ok(s) && s@ == t,
            Err(m) => r matches Err(e) && e@ == m,
        },
{
    if str_eq(operation, "base64_encode") {
        let bytes = input.as_bytes();
        if bytes.len() > usize::MAX / 2 {
            return Err("Input too long");
        }
        Ok(base64_encode(bytes))
    } else if str_eq(operation, "base64_decode") {
        match base64_decode(input) {
            Ok(bytes) => match string_from_utf8(bytes) {
                Ok(text) => Ok(text),
                Err(_) => Err("Decoded bytes are not valid UTF-8 text"),
            },
            Err(_) => Err("Invalid base64 input"),
        }
    } else if str_eq(operation, "url_encode") {
        Ok(url_encode(input))
    } else if str_eq(operation, "url_decode") {
        match url_decode(input) {
            Ok(text) => Ok(text),
            Err(_) => Err("Invalid URL-encoded input"),
        }
    } else if str_eq(operation, "sha256") {
        Ok(sha256_hex(input.as_bytes()))
    } else if str_eq(operation, "sha512") {
        Ok(sha512_hex(input.as_bytes()))
    } else {
        Err("Invalid operation")
    }
}

/// Runs the chosen text tool on the input.
pub fn process_text(username: String, form: &TextToolsForm) -> (r: TextToolsTemplate)
    ensures
        r.username@ == username@,
        match text_tool_result(form.operation@, form.input_text@) {
            Ok(t) => r.result@ == t && r.error@.len() == 0 && r.show_result && !r.show_error,
            Err(m) => r.error@ == m && r.result@.len() == 0 && r.show_error && !r.show_result,
        },
{
    match tool_result(form.operation.as_str(), form.input_text.as_str()) {
        Ok(result) => TextToolsTemplate {
            username,
            result,
            error: String::new(),
            show_result: true,
            show_error: false,
        },
        Err(message) => TextToolsTemplate {
            username,
            result: String::new(),
            error: String::from_str(message),
            show_result: false,
            show_error: true,
        },
    }
}

} // verus!
