use vstd::prelude::*;

use crate::text::ascii_lower_char;
use http::header::{HeaderMap, HeaderValue};

verus! {

/// A header as the script side writes it; a header without a value is left out.
#[derive(Clone, Debug)]
pub struct HeaderData {
    pub key: String,
    pub value: Option<String>,
}

/// The longest header name that is accepted, in bytes.
pub const MAX_HEADER_NAME_LEN: usize = 65535;

/// Whether a character may stand in a header name: the token characters of HTTP,
/// letters of either case, digits and ``!#$%&'*+-.^_`|~``.
pub open spec fn header_name_char(c: char) -> bool {
    ||| 'a' <= c && c <= 'z'
    ||| 'A' <= c && c <= 'Z'
    ||| '0' <= c && c <= '9'
    ||| c == '!' || c == '#' || c == '$' || c == '%' || c == '&' || c == '\''
    ||| c == '*' || c == '+' || c == '-' || c == '.' || c == '^' || c == '_'
    ||| c == '`' || c == '|' || c == '~'
}

/// The normalised form of a header name: a name of 1 to `MAX_HEADER_NAME_LEN`
/// token characters, made lower case; `None` for any other name.
pub open spec fn header_name_form(name: Seq<char>) -> Option<Seq<char>> {
    if 0 < name.len() <= MAX_HEADER_NAME_LEN && forall|i: int| 0 <= i < name.len() ==> header_name_char(
        #[trigger] name[i],
    ) {
        Some(name.map_values(|c: char| ascii_lower_char(c)))
    } else {
        None
    }
}

/// Checks a status code with `http::StatusCode::from_u16`. Its source accepts exactly
/// the codes from 100 to 999, and its error displays as `invalid status code`.
#[verifier::external_body]
pub(crate) fn check_status_code(status: u16) -> (r: Result<(), String>)
    ensures
        r is Ok <==> 100 <= status <= 999,
        r matches Err(m) ==> m@ == "invalid status code"@,
{
    match http::StatusCode::from_u16(status) {
        Ok(_) => Ok(()),
        Err(e) => Err(e.to_string()),
    }
}

/// Parses a header name with `http::header::HeaderName::from_bytes` and gives back its
/// normalised text (`as_str`). Its source maps every byte through a table that keeps
/// the token characters, makes `A` to `Z` small and sends every other byte (all
/// bytes from 0x80 on among them) to 0, and refuses a name that is empty, longer
/// than 65535 bytes or holds a 0 after mapping; its error displays as
/// `invalid HTTP header name`.
#[verifier::external_body]
pub(crate) fn parse_header_name(name: &str) -> (r: Result<String, String>)
    ensures
        match r {
            Ok(n) => header_name_form(name@) == Some(n@),
            Err(m) => header_name_form(name@) is None && m@ == "invalid HTTP header name"@,
        },
{
    match http::header::HeaderName::from_bytes(name.as_bytes()) {
        Ok(n) => Ok(n.as_str().to_string()),
        Err(e) => Err(e.to_string()),
    }
}

/// Whether a character may stand in a header value: a tab, or any character from
/// the space on except DEL (characters beyond ASCII are encoded as bytes from 0x80 on).
pub open spec fn header_value_char_ok(c: char) -> bool {
    c == '\t' || (c as u32 >= 32 && c as u32 != 127)
}

pub open spec fn header_value_ok(v: Seq<char>) -> bool {
    forall|i: int| 0 <= i < v.len() ==> header_value_char_ok(#[trigger] v[i])
}

/// Checks a header value with `http::header::HeaderValue::from_str`. Its source accepts
/// a value exactly when every byte is a tab or at least 32 and not 127; its error
/// displays as `failed to parse header value`.
#[verifier::external_body]
pub(crate) fn check_header_value(value: &str) -> (r: Result<(), String>)
    ensures
        r is Ok <==> header_value_ok(value@),
        r matches Err(m) ==> m@ == "failed to parse header value"@,
{
    match http::header::HeaderValue::from_str(value) {
        Ok(_) => Ok(()),
        Err(e) => Err(e.to_string()),
    }
}

#[verifier::external_type_specification]
#[verifier::external_body]
pub struct ExHeaderValue(HeaderValue);

#[verifier::external_type_specification]
#[verifier::external_body]
#[verifier::reject_recursive_types(T)]
pub struct ExHeaderMap<T>(HeaderMap<T>);

/// What an `http::HeaderMap` holds: each header name, in its normalised text, with
/// the texts of its values in order.
pub uninterp spec fn header_map_contents(m: HeaderMap) -> Map<Seq<char>, Seq<Seq<char>>>;

/// A new, empty map made with `http::HeaderMap::new`.
#[verifier::external_body]
pub(crate) fn new_header_map() -> (r: HeaderMap)
    ensures
        header_map_contents(r).dom().is_empty(),
{
    HeaderMap::new()
}

/// Sets a header with `http::HeaderMap::try_insert`, the name and value converted with
/// `HeaderName::from_bytes` and `HeaderValue::from_str`, which accept them here. Its
/// source gives the name this one value, all earlier ones removed; it fails, with the
/// map's contents unchanged, only where the table would have to grow beyond 32768
/// slots, which takes at least 6554 names already in the map.
#[verifier::external_body]
pub(crate) fn header_map_insert(m: &mut HeaderMap, name: &str, value: &str) -> (r: Result<(), String>)
    requires
        header_name_form(name@) is Some,
        header_value_ok(value@),
    ensures
        r is Ok ==> header_map_contents(*final(m)) == header_map_contents(*old(m)).insert(
            header_name_form(name@).unwrap(),
            seq![value@],
        ),
        r is Err ==> header_map_contents(*final(m)) == header_map_contents(*old(m)),
        header_map_contents(*old(m)).dom().len() < 6554 ==> r is Ok,
{
    let n = match http::header::HeaderName::from_bytes(name.as_bytes()) {
        Ok(n) => n,
        Err(e) => return Err(e.to_string()),
    };
    let v = match HeaderValue::from_str(value) {
        Ok(v) => v,
        Err(e) => return Err(e.to_string()),
    };
    match m.try_insert(n, v) {
        Ok(_) => Ok(()),
        Err(e) => Err(e.to_string()),
    }
}

/// The first reason a header pair is refused by a response builder, if any: the name
/// is checked before the value.
pub open spec fn pair_error(p: (Seq<char>, Seq<char>)) -> Option<Seq<char>> {
    if header_name_form(p.0) is None {
        Some("invalid HTTP header name"@)
    } else if !header_value_ok(p.1) {
        Some("failed to parse header value"@)
    } else {
        None
    }
}

/// The first refused pair of a list, in order.
pub open spec fn pairs_error(pairs: Seq<(Seq<char>, Seq<char>)>) -> Option<Seq<char>>
    decreases pairs.len(),
{
    if pairs.len() == 0 {
        None
    } else {
        match pairs_error(pairs.drop_last()) {
            Some(m) => Some(m),
            None => pair_error(pairs.last()),
        }
    }
}

pub open spec fn pairs_view(v: Seq<(String, String)>) -> Seq<(Seq<char>, Seq<char>)> {
    v.map_values(|p: (String, String)| (p.0@, p.1@))
}

/// Checks one header pair the way a response builder does.
pub fn check_pair(name: &str, value: &str) -> (r: Result<(), String>)
    ensures
        match r {
            Ok(()) => pair_error((name@, value@)) is None,
            Err(m) => pair_error((name@, value@)) == Some(m@),
        },
{
    match parse_header_name(name) {
        Err(m) => Err(m),
        Ok(_) => check_header_value(value),
    }
}

proof fn lemma_pairs_error_step(pairs: Seq<(Seq<char>, Seq<char>)>, i: int)
    requires
        0 <= i < pairs.len(),
    ensures
        pairs_error(pairs.take(i + 1)) == (match pairs_error(pairs.take(i)) {
            Some(m) => Some(m),
            None => pair_error(pairs[i]),
        }),
{
    assert(pairs.take(i + 1).drop_last() =~= pairs.take(i));
}

proof fn lemma_pairs_error_persists(pairs: Seq<(Seq<char>, Seq<char>)>, k: int)
    requires
        0 <= k <= pairs.len(),
        pairs_error(pairs.take(k)) is Some,
    ensures
        pairs_error(pairs) == pairs_error(pairs.take(k)),
    decreases pairs.len() - k,
{
    if k < pairs.len() {
        lemma_pairs_error_step(pairs, k);
        lemma_pairs_error_persists(pairs, k + 1);
    } else {
        assert(pairs.take(k) =~= pairs);
    }
}

/// Checks header pairs in order and reports the first refused one.
pub fn check_pairs(pairs: &Vec<(String, String)>) -> (r: Result<(), String>)
    ensures
        match r {
            Ok(()) => pairs_error(pairs_view(pairs@)) is None,
            Err(m) => pairs_error(pairs_view(pairs@)) == Some(m@),
        },
{
    let ghost pv = pairs_view(pairs@);
    let n = pairs.len();
    let mut i: usize = 0;
    assert(pv.take(0) =~= Seq::<(Seq<char>, Seq<char>)>::empty());
    while i < n
        invariant
            n == pairs@.len(),
            pv == pairs_view(pairs@),
            pv.len() == n,
            i <= n,
            pairs_error(pv.take(i as int)) is None,
        decreases n - i,
    {
        proof {
            lemma_pairs_error_step(pv, i as int);
        }
        let r = check_pair(pairs[i].0.as_str(), pairs[i].1.as_str());
        match r {
            Err(m) => {
                proof {
                    lemma_pairs_error_persists(pv, i + 1);
                }
                return Err(m);
            },
            Ok(()) => {},
        }
        i = i + 1;
    }
    assert(pv.take(n as int) =~= pv);
    Ok(())
}

} // verus!
