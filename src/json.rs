//! The JSON text that the wire format is made of, and a plain model of the
//! JSON documents that the service sends back.
use vstd::prelude::*;
use vstd::string::*;

verus! {

/// The lower-case hexadecimal digit for `d`, which is below 16.
pub open spec fn hex_digit(d: int) -> char {
    seq!['0', '1', '2', '3', '4', '5', '6', '7', '8', '9', 'a', 'b', 'c', 'd', 'e', 'f'][d]
}

/// How one character stands inside a JSON string literal: quote, backslash
/// and the control characters are escaped, everything else stands as it is.
pub open spec fn escape_char(c: char) -> Seq<char> {
    if c == '"' {
        seq!['\\', '"']
    } else if c == '\\' {
        seq!['\\', '\\']
    } else if c == '\u{8}' {
        seq!['\\', 'b']
    } else if c == '\t' {
        seq!['\\', 't']
    } else if c == '\n' {
        seq!['\\', 'n']
    } else if c == '\u{c}' {
        seq!['\\', 'f']
    } else if c == '\r' {
        seq!['\\', 'r']
    } else if (c as int) < 0x20 {
        seq!['\\', 'u', '0', '0', hex_digit((c as int) / 16), hex_digit((c as int) % 16)]
    } else {
        seq![c]
    }
}

/// The characters of `s`, each escaped.
pub open spec fn escaped(s: Seq<char>) -> Seq<char>
    decreases s.len(),
{
    if s.len() == 0 {
        Seq::empty()
    } else {
        escaped(s.drop_last()) + escape_char(s.last())
    }
}

/// `s` as a JSON string literal.
pub open spec fn quoted(s: Seq<char>) -> Seq<char> {
    seq!['"'] + escaped(s) + seq!['"']
}

/// `serde_json::Error`, why serde_json could not parse or write a value; opaque here.
#[verifier::external_type_specification]
#[verifier::external_body]
pub struct ExJsonError(serde_json::Error);

/// Relies on `serde_json::to_string` for a `str`: the literal is written into
/// a `Vec<u8>`, which cannot fail, between double quotes, with `"`, `\` and
/// the characters below U+0020 escaped (`\b \t \n \f \r`, else `\u00xx`).
#[verifier::external_body]
fn serde_quote(s: &str) -> (r: Result<String, serde_json::Error>)
    ensures
        r is Ok,
        r->Ok_0@ == quoted(s@),
{
    serde_json::to_string(s)
}

/// `s` as a JSON string literal.
pub fn quote(s: &str) -> (r: String)
    ensures
        r@ == quoted(s@),
{
    match serde_quote(s) {
        Ok(t) => t,
        Err(_) => {
            proof {
                assert(false);
            }
            String::new()
        },
    }
}

/// The decimal digits of `n`, without leading zeros.
pub open spec fn digits(n: nat) -> Seq<char>
    decreases n,
{
    if n < 10 {
        seq![hex_digit(n as int)]
    } else {
        digits(n / 10) + seq![hex_digit((n % 10) as int)]
    }
}

/// `i` written in decimal, as a JSON number is, with `-` before a negative value.
pub open spec fn int_text(i: int) -> Seq<char> {
    if i < 0 {
        seq!['-'] + digits((-i) as nat)
    } else {
        digits(i as nat)
    }
}

/// The views of a sequence of strings.
pub open spec fn texts(v: Seq<String>) -> Seq<Seq<char>> {
    v.map_values(|s: String| s@)
}

/// The parts, with a comma between each two.
pub open spec fn joined(parts: Seq<Seq<char>>) -> Seq<char>
    decreases parts.len(),
{
    if parts.len() == 0 {
        Seq::empty()
    } else if parts.len() == 1 {
        parts[0]
    } else {
        joined(parts.drop_last()) + seq![','] + parts.last()
    }
}

/// A JSON object made of the given member texts (`"key":value`).
pub open spec fn object(members: Seq<Seq<char>>) -> Seq<char> {
    seq!['{'] + joined(members) + seq!['}']
}

/// A JSON array made of the given element texts.
pub open spec fn array(items: Seq<Seq<char>>) -> Seq<char> {
    seq!['['] + joined(items) + seq![']']
}

/// A JSON array of string literals.
pub open spec fn string_array(items: Seq<Seq<char>>) -> Seq<char> {
    array(items.map_values(|s: Seq<char>| quoted(s)))
}

fn digit_text(d: u64) -> (r: &'static str)
    requires
        d < 10,
    ensures
        r@ == seq![hex_digit(d as int)],
{
    proof {
        reveal_strlit("0");
        reveal_strlit("1");
        reveal_strlit("2");
        reveal_strlit("3");
        reveal_strlit("4");
        reveal_strlit("5");
        reveal_strlit("6");
        reveal_strlit("7");
        reveal_strlit("8");
        reveal_strlit("9");
    }
    match d {
        0 => "0",
        1 => "1",
        2 => "2",
        3 => "3",
        4 => "4",
        5 => "5",
        6 => "6",
        7 => "7",
        8 => "8",
        _ => "9",
    }
}

/// `n` written in decimal.
pub fn decimal(n: i64) -> (r: String)
    ensures
        r@ == int_text(n as int),
{
    let magnitude: u64 = if n < 0 {
        (0i128 - n as i128) as u64
    } else {
        n as u64
    };
    let mut m: u64 = magnitude;
    let mut out = String::new();
    while m >= 10
        invariant
            digits(magnitude as nat) == digits(m as nat) + out@,
        decreases m,
    {
        let mut t = String::new();
        t.append(digit_text(m % 10));
        t.append(out.as_str());
        assert(digits(m as nat) == digits((m / 10) as nat) + seq![hex_digit((m % 10) as int)]);
        out = t;
        m = m / 10;
    }
    let mut r = String::new();
    if n < 0 {
        proof {
            reveal_strlit("-");
        }
        r.append("-");
    }
    r.append(digit_text(m));
    r.append(out.as_str());
    r
}

/// Appends the parts to `out`, with a comma between each two.
fn append_joined(out: &mut String, parts: &Vec<String>)
    ensures
        final(out)@ == old(out)@ + joined(texts(parts@)),
{
    let mut i: usize = 0;
    while i < parts.len()
        invariant
            i <= parts.len(),
            out@ == old(out)@ + joined(texts(parts@.take(i as int))),
        decreases parts.len() - i,
    {
        if i > 0 {
            proof {
                reveal_strlit(",");
            }
            out.append(",");
        }
        out.append(parts[i].as_str());
        proof {
            let next = texts(parts@.take(i as int + 1));
            assert(next.drop_last() =~= texts(parts@.take(i as int)));
            assert(next.last() == parts@[i as int]@);
        }
        i = i + 1;
    }
    assert(parts@.take(parts.len() as int) =~= parts@);
}

/// The JSON object made of the given member texts.
pub fn object_text(members: &Vec<String>) -> (r: String)
    ensures
        r@ == object(texts(members@)),
{
    proof {
        reveal_strlit("{");
        reveal_strlit("}");
    }
    let mut r = String::new();
    r.append("{");
    append_joined(&mut r, members);
    r.append("}");
    r
}

/// The JSON array made of the given element texts.
pub fn array_text(items: &Vec<String>) -> (r: String)
    ensures
        r@ == array(texts(items@)),
{
    proof {
        reveal_strlit("[");
        reveal_strlit("]");
    }
    let mut r = String::new();
    r.append("[");
    append_joined(&mut r, items);
    r.append("]");
    r
}

/// The JSON array of the given strings, each as a string literal.
pub fn string_array_text(items: &Vec<String>) -> (r: String)
    ensures
        r@ == string_array(texts(items@)),
{
    let mut quoted_items: Vec<String> = Vec::new();
    let mut i: usize = 0;
    while i < items.len()
        invariant
            i <= items.len(),
            quoted_items@.len() == i,
            forall|j: int| 0 <= j < i ==> #[trigger] quoted_items@[j]@ == quoted(items@[j]@),
        decreases items.len() - i,
    {
        quoted_items.push(quote(items[i].as_str()));
        i = i + 1;
    }
    assert(texts(quoted_items@) =~= texts(items@).map_values(|s: Seq<char>| quoted(s)));
    array_text(&quoted_items)
}

/// The view of an optional string.
pub open spec fn opt_view(s: Option<String>) -> Option<Seq<char>> {
    match s {
        Some(t) => Some(t@),
        None => None,
    }
}

/// The view of an optional borrowed string.
pub open spec fn opt_str_view(s: Option<&str>) -> Option<Seq<char>> {
    match s {
        Some(t) => Some(t@),
        None => None,
    }
}

/// The views of an optional list of strings.
pub open spec fn opt_texts(v: Option<Vec<String>>) -> Option<Seq<Seq<char>>> {
    match v {
        Some(items) => Some(texts(items@)),
        None => None,
    }
}

/// The views of borrowed strings.
pub open spec fn str_texts(v: Seq<&str>) -> Seq<Seq<char>> {
    v.map_values(|s: &str| s@)
}

/// The member `key` + `value` where the value is there, else none.
pub open spec fn opt_member(key: Seq<char>, value: Option<Seq<char>>) -> Seq<Seq<char>> {
    match value {
        Some(v) => seq![key + v],
        None => Seq::empty(),
    }
}

/// An optional string member: the string as a JSON literal.
pub open spec fn text_member(key: Seq<char>, value: Option<Seq<char>>) -> Seq<Seq<char>> {
    match value {
        Some(v) => opt_member(key, Some(quoted(v))),
        None => Seq::empty(),
    }
}

/// An optional list member: a JSON array of string literals.
pub open spec fn list_member(key: Seq<char>, value: Option<Seq<Seq<char>>>) -> Seq<Seq<char>> {
    match value {
        Some(v) => opt_member(key, Some(string_array(v))),
        None => Seq::empty(),
    }
}


/// An owned copy of each string.
pub(crate) fn own_all(items: &Vec<&str>) -> (r: Vec<String>)
    ensures
        texts(r@) == str_texts(items@),
{
    let mut r: Vec<String> = Vec::new();
    let mut i: usize = 0;
    while i < items.len()
        invariant
            i <= items@.len(),
            r@.len() == i,
            forall|j: int| 0 <= j < i ==> #[trigger] r@[j]@ == items@[j]@,
        decreases items.len() - i,
    {
        r.push(items[i].to_owned());
        i = i + 1;
    }
    assert(texts(r@) =~= str_texts(items@));
    r
}


/// The member `key` + `value`.
pub(crate) fn member(key: &str, value: String) -> (r: String)
    ensures
        r@ == key@ + value@,
{
    let mut r = String::new();
    r.append(key);
    r.append(value.as_str());
    r
}

/// Adds the member `key` + `value`.
pub(crate) fn push_member(members: &mut Vec<String>, key: &str, value: String)
    ensures
        texts(final(members)@) == texts(old(members)@) + seq![key@ + value@],
{
    members.push(member(key, value));
    assert(texts(members@) =~= texts(old(members)@) + seq![key@ + value@]);
}

/// Adds the string member where the value is set.
pub(crate) fn push_text(members: &mut Vec<String>, key: &str, value: &Option<String>)
    ensures
        texts(final(members)@) == texts(old(members)@) + text_member(key@, opt_view(*value)),
{
    match value {
        Some(v) => {
            members.push(member(key, quote(v.as_str())));
        },
        None => {},
    }
    assert(texts(members@) =~= texts(old(members)@) + text_member(key@, opt_view(*value)));
}

/// Adds the list member where the value is set.
pub(crate) fn push_list(members: &mut Vec<String>, key: &str, value: &Option<Vec<String>>)
    ensures
        texts(final(members)@) == texts(old(members)@) + list_member(key@, opt_texts(*value)),
{
    match value {
        Some(v) => {
            members.push(member(key, string_array_text(v)));
        },
        None => {},
    }
    assert(texts(members@) =~= texts(old(members)@) + list_member(key@, opt_texts(*value)));
}


/// The optional string, borrowed.
pub(crate) fn borrow_text(s: &Option<String>) -> (r: Option<&str>)
    ensures
        opt_str_view(r) == opt_view(*s),
{
    match s {
        Some(t) => Some(t.as_str()),
        None => None,
    }
}

/// A JSON number as the logic reads it: as an unsigned and as a signed
/// 64-bit integer, each where the number is an integer in that range.
#[derive(Debug, Clone, Copy, PartialEq, Eq)]
pub struct JsonNumber {
    pub unsigned: Option<u64>,
    pub signed: Option<i64>,
}

/// A parsed JSON document. The members of an object keep the order in which
/// the parser hands them out.
#[derive(Debug, PartialEq)]
pub enum JsonValue {
    Null,
    Bool(bool),
    Number(JsonNumber),
    Str(String),
    Array(Vec<JsonValue>),
    Object(Vec<(String, JsonValue)>),
}

/// `serde_json::Value`, a parsed JSON document; opaque here.
#[verifier::external_type_specification]
#[verifier::external_body]
pub struct ExJsonDocument(serde_json::Value);

/// The document that `text` parses to, in the library's form, or `None`
/// where `text` is not JSON.
pub uninterp spec fn json_of(text: Seq<char>) -> Option<JsonValue>;

/// Relies on `serde_json::from_str`, which parses a JSON document into a
/// `serde_json::Value`; the result depends on the text alone.
#[verifier::external_body]
pub fn parse_json(text: &str) -> (r: Option<JsonValue>)
    ensures
        r == json_of(text@),
{
    serde_json::from_str::<serde_json::Value>(text).ok().map(json_value)
}

/// Relies on the variants of `serde_json::Value` and on
/// `serde_json::Number::as_u64` and `as_i64`: the value in the library's
/// form, one variant for one.
#[verifier::external_body]
fn json_value(v: serde_json::Value) -> JsonValue {
    match v {
        serde_json::Value::Null => JsonValue::Null,
        serde_json::Value::Bool(b) => JsonValue::Bool(b),
        serde_json::Value::Number(n) => JsonValue::Number(
            JsonNumber { unsigned: n.as_u64(), signed: n.as_i64() },
        ),
        serde_json::Value::String(s) => JsonValue::Str(s),
        serde_json::Value::Array(a) => JsonValue::Array(a.into_iter().map(json_value).collect()),
        serde_json::Value::Object(m) => JsonValue::Object(
            m.into_iter().map(|(k, x)| (k, json_value(x))).collect(),
        ),
    }
}

} // verus!
