//! JSON: the calls into `serde_json` that the server and its client make.
//!
//! Each of these functions turns plain text, numbers and booleans into plain
//! text. What they print is stated in full. How `serde_json` reads a text is not
//! restated: that result has a name, and the facts beside the name say what is
//! read back of a text that was printed here.

use vstd::prelude::*;

verus! {

/// The hexadecimal digit of `d`, in lower case.
pub open spec fn hex_digit(d: int) -> char {
    if d < 10 {
        crate::text::digit_char(d)
    } else {
        ('a' as int + (d - 10)) as char
    }
}

/// The character `c` inside a JSON string: quotes, backslashes and control
/// characters are escaped, every other character stands for itself.
pub open spec fn escaped(c: char) -> Seq<char> {
    if c == '"' || c == '\\' {
        seq!['\\', c]
    } else if c == '\u{8}' {
        seq!['\\', 'b']
    } else if c == '\t' {
        seq!['\\', 't']
    } else if c == '\n' {
        seq!['\\', 'n']
    } else if c == '\u{c}' {
        seq!['\\', 'f']
    } else if c == '\r' {
        seq!['\\', 'r']
    } else if ' ' > c {
        seq!['\\', 'u', '0', '0', hex_digit(c as int / 16), hex_digit(c as int % 16)]
    } else {
        seq![c]
    }
}

/// The characters `s` inside a JSON string.
pub open spec fn escaped_all(s: Seq<char>) -> Seq<char>
    decreases s.len(),
{
    if s.len() == 0 {
        seq![]
    } else {
        escaped_all(s.drop_last()) + escaped(s.last())
    }
}

/// The JSON text of the string `s`.
pub open spec fn string_json(s: Seq<char>) -> Seq<char> {
    seq!['"'] + escaped_all(s) + seq!['"']
}

/// `key` belongs to the keys that `serde_json` keeps for itself: an object that
/// begins with one of them need not be read as an object with that field.
pub open spec fn is_reserved_key(key: Seq<char>) -> bool {
    "$serde_json::private::"@.is_prefix_of(key)
}

/// What `serde_json` reads at `key` in `text`: the compact JSON text of the
/// field `key` of the value that it makes of `text`; `None` if it does not accept
/// `text`, or if that value is no object or has no such field. The value is the
/// one that `text` denotes, but for objects in it that begin with a reserved key.
pub uninterp spec fn field_json(text: Seq<char>, key: Seq<char>) -> Option<Seq<char>>;

/// The compact JSON text of a field: its key, a colon, and the text of its
/// value.
pub open spec fn member_json(key: Seq<char>, value: Seq<char>) -> Seq<char> {
    string_json(key) + ":"@ + value
}

/// The compact JSON text of an object with one field, the number `n`.
pub open spec fn number_object_json(key: Seq<char>, n: u64) -> Seq<char> {
    "{"@ + member_json(key, crate::text::decimal(n as nat)) + "}"@
}

/// The compact JSON text of an object with three fields, strings, in this
/// order.
pub open spec fn strings_object_json(
    k0: Seq<char>,
    v0: Seq<char>,
    k1: Seq<char>,
    v1: Seq<char>,
    k2: Seq<char>,
    v2: Seq<char>,
) -> Seq<char> {
    "{"@ + member_json(k0, string_json(v0)) + ","@ + member_json(k1, string_json(v1)) + ","@
        + member_json(k2, string_json(v2)) + "}"@
}

/// The JSON text of `b`.
pub open spec fn bool_json(b: bool) -> Seq<char> {
    if b {
        "true"@
    } else {
        "false"@
    }
}

/// The compact JSON text of an object with one field, the boolean `b`.
pub open spec fn bool_object_json(key: Seq<char>, b: bool) -> Seq<char> {
    "{"@ + member_json(key, bool_json(b)) + "}"@
}

/// A key that begins with another character than the reserved ones is none of
/// them.
pub proof fn not_reserved(key: Seq<char>)
    requires
        key.len() > 0,
        key[0] != '$',
    ensures
        !is_reserved_key(key),
{
    reveal_strlit("$serde_json::private::");
    assert("$serde_json::private::"@[0] == '$');
}

/// Three keys are in ascending order already by their first characters.
pub open spec fn ascending_keys(k0: Seq<char>, k1: Seq<char>, k2: Seq<char>) -> bool {
    k0.len() > 0 && k1.len() > 0 && k2.len() > 0 && k0[0] < k1[0] < k2[0]
}

/// Prints a `serde_json::Value::Object` of three string fields with the
/// `Display` impl of `serde_json::Value`.
///
/// Trusted: the fields are printed compactly, in the order of their keys, each
/// key and value as the JSON string that it is; and [`field`] finds each value
/// in the text again, unless the first key is a reserved one.
#[verifier::external_body]
pub(crate) fn strings_object(k0: &str, v0: &str, k1: &str, v1: &str, k2: &str, v2: &str) -> (r:
    String)
    requires
        ascending_keys(k0@, k1@, k2@),
    ensures
        r@ == strings_object_json(k0@, v0@, k1@, v1@, k2@, v2@),
        !is_reserved_key(k0@) ==> {
            &&& field_json(r@, k0@) == Some(string_json(v0@))
            &&& field_json(r@, k1@) == Some(string_json(v1@))
            &&& field_json(r@, k2@) == Some(string_json(v2@))
        },
{
    let mut map = serde_json::Map::new();
    map.insert(k0.to_string(), serde_json::Value::from(v0));
    map.insert(k1.to_string(), serde_json::Value::from(v1));
    map.insert(k2.to_string(), serde_json::Value::from(v2));
    serde_json::Value::Object(map).to_string()
}

/// Prints a `serde_json::Value::Object` of one number field with the `Display`
/// impl of `serde_json::Value`.
///
/// Trusted: the field is printed compactly, its key as a JSON string and the
/// number in decimal; and [`field`] finds the number in the text again, unless
/// the key is a reserved one.
#[verifier::external_body]
pub(crate) fn number_object(key: &str, n: u64) -> (r: String)
    ensures
        r@ == number_object_json(key@, n),
        !is_reserved_key(key@) ==> field_json(r@, key@) == Some(crate::text::decimal(n as nat)),
{
    let mut map = serde_json::Map::new();
    map.insert(key.to_string(), serde_json::Value::from(n));
    serde_json::Value::Object(map).to_string()
}

/// Prints a `serde_json::Value::Object` of one boolean field with the `Display`
/// impl of `serde_json::Value`.
///
/// Trusted: the field is printed compactly, its key as a JSON string and the
/// boolean by its name; and [`field`] finds the boolean in the text again, unless
/// the key is a reserved one.
#[verifier::external_body]
pub(crate) fn bool_object(key: &str, b: bool) -> (r: String)
    ensures
        r@ == bool_object_json(key@, b),
        !is_reserved_key(key@) ==> field_json(r@, key@) == Some(bool_json(b)),
{
    let mut map = serde_json::Map::new();
    map.insert(key.to_string(), serde_json::Value::from(b));
    serde_json::Value::Object(map).to_string()
}

/// Reads `text` with `serde_json::from_str` as a `serde_json::Value`, looks up
/// `key` with `Value::get`, and prints what is there with the `Display` impl of
/// `Value`.
///
/// Trusted: the result is a function of the text and the key.
#[verifier::external_body]
pub(crate) fn field(text: &str, key: &str) -> (r: Option<String>)
    ensures
        crate::text::optional_text(r) == field_json(text@, key@),
{
    serde_json::from_str::<serde_json::Value>(text)
        .ok()
        .and_then(|v| v.get(key).map(|f| f.to_string()))
}

} // verus!
