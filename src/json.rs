use vstd::prelude::*;
use vstd::string::*;

verus! {

/// What a JSON document holds, as far as the protocol reads it.
pub enum Json {
    Null,
    Bool(bool),
    /// A number written as an integer that fits in 64 bits.
    Int(int),
    /// Any other number.
    Real,
    Text(Seq<char>),
    Array(Seq<Json>),
    Object(Map<Seq<char>, Json>),
}

#[verifier::external_type_specification]
#[verifier::external_body]
pub struct ExValue(serde_json::Value);

#[verifier::external_type_specification]
#[verifier::external_body]
pub struct ExJsonError(serde_json::Error);

/// The document that a `serde_json::Value` holds.
pub uninterp spec fn json_tree(v: serde_json::Value) -> Json;

/// The document that JSON text parses to, if it parses.
pub uninterp spec fn parsed_json(text: Seq<char>) -> Option<Json>;

/// A single reference token that `serde_json`'s pointer lookup takes
/// literally: no separator, no escape, and no array index but `0`.
pub open spec fn plain_token(t: Seq<char>) -> bool {
    &&& forall|i: int| 0 <= i < t.len() ==> #[trigger] t[i] != '/' && t[i] != '~'
    &&& (t == seq!['0'] || t.len() == 0 || !('1' <= t[0] && t[0] <= '9'))
}

/// The member of an object under a key, or the first element of an array
/// for the token `0`.
pub open spec fn member(t: Json, token: Seq<char>) -> Option<Json> {
    match t {
        Json::Object(m) => if m.contains_key(token) {
            Some(m[token])
        } else {
            None
        },
        Json::Array(a) => if token == seq!['0'] && a.len() > 0 {
            Some(a[0])
        } else {
            None
        },
        _ => None,
    }
}

/// One step down from a node that may be missing.
pub open spec fn get(t: Option<Json>, token: Seq<char>) -> Option<Json> {
    match t {
        Some(x) => member(x, token),
        None => None,
    }
}

pub open spec fn as_text(t: Option<Json>) -> Option<Seq<char>> {
    match t {
        Some(Json::Text(s)) => Some(s),
        _ => None,
    }
}

pub open spec fn as_boolean(t: Option<Json>) -> Option<bool> {
    match t {
        Some(Json::Bool(b)) => Some(b),
        _ => None,
    }
}

pub open spec fn as_int64(t: Option<Json>) -> Option<i64> {
    match t {
        Some(Json::Int(n)) => if i64::MIN <= n <= i64::MAX {
            Some(n as i64)
        } else {
            None
        },
        _ => None,
    }
}

/// The document of a node that may be missing.
pub open spec fn tree_of(v: Option<&serde_json::Value>) -> Option<Json> {
    match v {
        Some(x) => Some(json_tree(*x)),
        None => None,
    }
}

/// Relies on `serde_json::from_str` into a `Value`: the document depends on
/// the text alone.
#[verifier::external_body]
pub(crate) fn parse_json(text: &str) -> (r: Result<serde_json::Value, serde_json::Error>)
    ensures
        match r {
            Ok(v) => parsed_json(text@) == Some(json_tree(v)),
            Err(_) => parsed_json(text@) is None,
        },
{
    serde_json::from_str(text)
}

pub assume_specification<'a, 'b>[ serde_json::Value::pointer ](
    v: &'a serde_json::Value,
    pointer: &'b str,
) -> (r: Option<&'a serde_json::Value>)
    requires
        pointer@.len() >= 1,
        pointer@[0] == '/',
        plain_token(pointer@.drop_first()),
    ensures
        match r {
            Some(c) => member(json_tree(*v), pointer@.drop_first()) == Some(json_tree(*c)),
            None => member(json_tree(*v), pointer@.drop_first()) is None,
        },
;

pub assume_specification<'a>[ serde_json::Value::as_str ](v: &'a serde_json::Value) -> (r: Option<&'a str>)
    ensures
        match r {
            Some(s) => json_tree(*v) == Json::Text(s@),
            None => !(json_tree(*v) is Text),
        },
;

pub assume_specification[ serde_json::Value::as_bool ](v: &serde_json::Value) -> (r: Option<bool>)
    ensures
        match json_tree(*v) {
            Json::Bool(b) => r == Some(b),
            _ => r is None,
        },
;

pub assume_specification[ serde_json::Value::as_i64 ](v: &serde_json::Value) -> (r: Option<i64>)
    ensures
        match json_tree(*v) {
            Json::Int(n) => if i64::MIN <= n <= i64::MAX {
                r == Some(n as i64)
            } else {
                r is None
            },
            _ => r is None,
        },
;

pub assume_specification[ <serde_json::Value as Clone>::clone ](v: &serde_json::Value) -> (r: serde_json::Value)
    ensures
        json_tree(r) == json_tree(*v),
;

/// The member of `v` under a plain token.
pub fn member_of<'a>(v: &'a serde_json::Value, token: &str) -> (r: Option<&'a serde_json::Value>)
    requires
        plain_token(token@),
    ensures
        match r {
            Some(c) => member(json_tree(*v), token@) == Some(json_tree(*c)),
            None => member(json_tree(*v), token@) is None,
        },
{
    let mut pointer = String::from_str("/");
    proof {
        reveal_strlit("/");
    }
    pointer.append(token);
    assert(pointer@.drop_first() =~= token@);
    v.pointer(pointer.as_str())
}

/// One step down, under a plain token, from a node that may be missing.
pub fn get_in<'a>(v: Option<&'a serde_json::Value>, token: &str) -> (r: Option<&'a serde_json::Value>)
    requires
        plain_token(token@),
    ensures
        tree_of(r) == get(tree_of(v), token@),
{
    match v {
        Some(x) => member_of(x, token),
        None => None,
    }
}

/// The string held by a node, if it is one.
pub fn text_in(v: Option<&serde_json::Value>) -> (r: Option<String>)
    ensures
        match r {
            Some(s) => as_text(tree_of(v)) == Some(s@),
            None => as_text(tree_of(v)) is None,
        },
{
    match v {
        Some(x) => match x.as_str() {
            Some(s) => Some(String::from_str(s)),
            None => None,
        },
        None => None,
    }
}

/// The boolean held by a node, if it is one.
pub fn bool_in(v: Option<&serde_json::Value>) -> (r: Option<bool>)
    ensures
        r == as_boolean(tree_of(v)),
{
    match v {
        Some(x) => x.as_bool(),
        None => None,
    }
}

/// The 64-bit integer held by a node, if it is one.
pub fn i64_in(v: Option<&serde_json::Value>) -> (r: Option<i64>)
    ensures
        r == as_int64(tree_of(v)),
{
    match v {
        Some(x) => x.as_i64(),
        None => None,
    }
}

} // verus!
