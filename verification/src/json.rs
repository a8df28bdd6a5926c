use vstd::prelude::*;

verus! {

/// A lower-case hexadecimal digit.
pub open spec fn hex_digit(n: int) -> char {
    if n < 10 {
        (48 + n) as char
    } else {
        (87 + n) as char
    }
}

/// How one character stands inside a JSON string literal: a quote and a backslash
/// behind a backslash; backspace, tab, line feed, form feed and carriage return as
/// `\b`, `\t`, `\n`, `\f`, `\r`; any other character below the space as `\u00`
/// and two lower-case hexadecimal digits; every other character as it is.
pub open spec fn json_char_escape(c: char) -> Seq<char> {
    let n = c as int;
    if c == '"' {
        seq!['\\', '"']
    } else if c == '\\' {
        seq!['\\', '\\']
    } else if n == 8 {
        seq!['\\', 'b']
    } else if n == 9 {
        seq!['\\', 't']
    } else if n == 10 {
        seq!['\\', 'n']
    } else if n == 12 {
        seq!['\\', 'f']
    } else if n == 13 {
        seq!['\\', 'r']
    } else if n < 32 {
        seq!['\\', 'u', '0', '0', hex_digit(n / 16), hex_digit(n % 16)]
    } else {
        seq![c]
    }
}

/// The characters of a text, each escaped for a JSON string literal.
pub open spec fn json_escaped(s: Seq<char>) -> Seq<char>
    decreases s.len(),
{
    if s.len() == 0 {
        Seq::empty()
    } else {
        json_escaped(s.drop_last()) + json_char_escape(s.last())
    }
}

/// The JSON string literal that `serde_json::to_string` writes for a string: the
/// escaped text in double quotes.
pub open spec fn json_string_literal(s: Seq<char>) -> Seq<char> {
    seq!['"'] + json_escaped(s) + seq!['"']
}

/// Items joined by a separator.
pub open spec fn join(items: Seq<Seq<char>>, sep: Seq<char>) -> Seq<char>
    decreases items.len(),
{
    if items.len() == 0 {
        Seq::empty()
    } else if items.len() == 1 {
        items[0]
    } else {
        join(items.drop_last(), sep) + sep + items.last()
    }
}

/// The JSON array that `serde_json::to_string` writes for a list of strings: the
/// string literals, separated by commas, in square brackets.
pub open spec fn json_string_array(items: Seq<Seq<char>>) -> Seq<char> {
    "["@ + join(items.map_values(|s: Seq<char>| json_string_literal(s)), ","@) + "]"@
}

/// Writes a string as a JSON string literal with `serde_json::to_string`. Its source
/// writes a quote, each byte of the text through its escape table (the escapes of
/// `json_char_escape`; bytes from 0x80 on are copied), and a quote, into a growable
/// buffer that cannot fail, so the result is always `Ok`.
#[verifier::external_body]
pub(crate) fn json_quote(s: &str) -> (r: Result<String, String>)
    ensures
        r is Ok,
        r matches Ok(q) ==> q@ == json_string_literal(s@),
{
    match serde_json::to_string(s) {
        Ok(q) => Ok(q),
        Err(e) => Err(e.to_string()),
    }
}

/// Writes a list of strings as a JSON array with `serde_json::to_string`. Its source
/// writes `[`, the elements' string literals separated by `,`, then `]`, into a
/// growable buffer that cannot fail, so the result is always `Ok`.
#[verifier::external_body]
pub(crate) fn json_quote_list(items: &Vec<String>) -> (r: Result<String, String>)
    ensures
        r is Ok,
        r matches Ok(q) ==> q@ == json_string_array(items@.map_values(|s: String| s@)),
{
    match serde_json::to_string(items) {
        Ok(q) => Ok(q),
        Err(e) => Err(e.to_string()),
    }
}

/// The boolean member `key` of the JSON object that `text` holds, as
/// `serde_json::from_str::<Value>` and `Value::get` with `as_bool` read it: `None`
/// where the text is no JSON, or the member is missing or not a boolean.
pub uninterp spec fn json_bool_member(text: Seq<char>, key: Seq<char>) -> Option<bool>;

/// The string member `key` of the JSON object that `text` holds (`as_str`): `None`
/// where the text is no JSON, or the member is missing or not a string.
pub uninterp spec fn json_str_member(text: Seq<char>, key: Seq<char>) -> Option<Seq<char>>;

/// The member `key` of the JSON object that `text` holds, written back as JSON text
/// by `Value::to_string`: `None` where the text is no JSON or the member is missing.
pub uninterp spec fn json_member_text(text: Seq<char>, key: Seq<char>) -> Option<Seq<char>>;

/// Reads a boolean member of a JSON text with `serde_json::from_str` and `Value::get`;
/// the result is named `json_bool_member`.
#[verifier::external_body]
fn json_get_bool(text: &str, key: &str) -> (r: Option<bool>)
    ensures
        r == json_bool_member(text@, key@),
{
    serde_json::from_str::<serde_json::Value>(text).ok().and_then(|v| v.get(key).and_then(|x| x.as_bool()))
}

/// Reads a string member of a JSON text with `serde_json::from_str` and `Value::get`;
/// the result is named `json_str_member`.
#[verifier::external_body]
fn json_get_str(text: &str, key: &str) -> (r: Option<String>)
    ensures
        match r {
            Some(m) => json_str_member(text@, key@) == Some(m@),
            None => json_str_member(text@, key@) is None,
        },
{
    serde_json::from_str::<serde_json::Value>(text).ok().and_then(|v| v.get(key).and_then(|x| x.as_str().map(|m| m.to_string())))
}

/// Reads a member of a JSON text with `serde_json::from_str` and `Value::get` and
/// writes it back with `Value::to_string`; the result is named `json_member_text`.
#[verifier::external_body]
fn json_get_text(text: &str, key: &str) -> (r: Option<String>)
    ensures
        match r {
            Some(m) => json_member_text(text@, key@) == Some(m@),
            None => json_member_text(text@, key@) is None,
        },
{
    serde_json::from_str::<serde_json::Value>(text).ok().and_then(|v| v.get(key).map(|x| x.to_string()))
}

/// A call from the page to an exposed function: its namespace, method and arguments
/// (as JSON text). The call's number is read by the host.
#[derive(Clone, Debug)]
pub struct ExposeEnvelope {
    pub ns: String,
    pub method: String,
    pub args_json: String,
}

pub open spec fn text_or(t: Option<Seq<char>>, d: Seq<char>) -> Seq<char> {
    match t {
        Some(x) => x,
        None => d,
    }
}

/// Whether an IPC message body is an expose call: a JSON object whose `__e` member
/// is `true`.
pub open spec fn is_expose_call(body: Seq<char>) -> bool {
    json_bool_member(body, "__e"@) == Some(true)
}

/// Reads an expose call out of an IPC message body: `None` unless the body is one;
/// else its `ns` and `method` (empty where missing or not strings) and its `args`
/// written as JSON (`[]` where missing).
pub fn parse_expose_envelope(body: &str) -> (r: Option<ExposeEnvelope>)
    ensures
        r is Some <==> is_expose_call(body@),
        r matches Some(e) ==> e.ns@ == text_or(json_str_member(body@, "ns"@), Seq::empty())
            && e.method@ == text_or(json_str_member(body@, "method"@), Seq::empty())
            && e.args_json@ == text_or(json_member_text(body@, "args"@), "[]"@),
{
    match json_get_bool(body, "__e") {
        Some(true) => {},
        _ => {
            return None;
        },
    }
    let ns = match json_get_str(body, "ns") {
        Some(n) => n,
        None => String::new(),
    };
    let method = match json_get_str(body, "method") {
        Some(m) => m,
        None => String::new(),
    };
    let args_json = match json_get_text(body, "args") {
        Some(a) => a,
        None => String::from_str("[]"),
    };
    Some(ExposeEnvelope { ns, method, args_json })
}

} // verus!
