//! A plain model of a parsed JSON document, and the bridge from `serde_json`.
use vstd::prelude::*;

verus! {

/// A JSON number as the data model reads it: only integers are ever converted,
/// so the value of a fractional number is not kept.
#[derive(PartialEq, Eq, Structural, Clone, Copy, Debug)]
pub enum JsonNumber {
    PosInt(u64),
    NegInt(i64),
    Float,
}

/// A parsed JSON document. Object members are listed as the parser hands
/// them out; a lookup takes the first member with the key it asks for.
#[derive(Debug)]
pub enum Json {
    Null,
    Bool(bool),
    Number(JsonNumber),
    Str(String),
    Array(Vec<Json>),
    Object(Vec<(String, Json)>),
}

/// The value of the first member of `members` whose key is `key`.
pub open spec fn lookup(members: Seq<(String, Json)>, key: Seq<char>) -> Option<Json>
    decreases members.len(),
{
    if members.len() == 0 {
        None
    } else if members[0].0@ == key {
        Some(members[0].1)
    } else {
        lookup(members.drop_first(), key)
    }
}

/// The member `key` of `j`, where `j` is an object that has one.
pub open spec fn member(j: Json, key: Seq<char>) -> Option<Json> {
    match j {
        Json::Object(m) => lookup(m@, key),
        _ => None,
    }
}

proof fn lemma_lookup_skip(members: Seq<(String, Json)>, key: Seq<char>, i: int)
    requires
        0 <= i < members.len(),
        members[i].0@ != key,
    ensures
        lookup(members.subrange(i, members.len() as int), key) == lookup(
            members.subrange(i + 1, members.len() as int),
            key,
        ),
{
    let s = members.subrange(i, members.len() as int);
    assert(s.drop_first() =~= members.subrange(i + 1, members.len() as int));
}

/// Finds the value of the member `key` among `members`.
pub fn find_member<'a>(members: &'a Vec<(String, Json)>, key: &str) -> (r: Option<&'a Json>)
    ensures
        match r {
            Some(v) => lookup(members@, key@) == Some(*v),
            None => lookup(members@, key@) is None,
        },
{
    let wanted = String::from_str(key);
    let mut i: usize = 0;
    assert(members@.subrange(0, members@.len() as int) =~= members@);
    while i < members.len()
        invariant
            0 <= i <= members@.len(),
            wanted@ == key@,
            lookup(members@, key@) == lookup(members@.subrange(i as int, members@.len() as int), key@),
        decreases members@.len() - i,
    {
        if members[i].0 == wanted {
            let ghost s = members@.subrange(i as int, members@.len() as int);
            assert(s[0] == members@[i as int]);
            return Some(&members[i].1);
        }
        proof {
            lemma_lookup_skip(members@, key@, i as int);
        }
        i = i + 1;
    }
    assert(members@.subrange(i as int, members@.len() as int).len() == 0);
    None
}

#[verifier::external_type_specification]
#[verifier::external_body]
pub struct ExValue(serde_json::Value);

#[verifier::external_type_specification]
#[verifier::external_body]
pub struct ExError(serde_json::Error);

/// The document that `serde_json` parses from `bytes`, in the plain model;
/// `None` where the bytes are not one JSON document.
pub uninterp spec fn json_of(bytes: Seq<u8>) -> Option<Json>;

/// Relies on serde_json::from_slice, whose result depends on the bytes alone,
/// and on `model_of` below, which copies the parsed value into the model.
#[verifier::external_body]
pub(crate) fn parse_json(bytes: &[u8]) -> (r: Result<Json, serde_json::Error>)
    ensures
        match r {
            Ok(j) => json_of(bytes@) == Some(j),
            Err(_) => json_of(bytes@) is None,
        },
{
    serde_json::from_slice::<serde_json::Value>(bytes).map(model_of)
}

/// Copies a parsed `serde_json::Value` into the model, variant for variant;
/// serde_json::Number::as_u64 and as_i64 tell the integers apart. Used only
/// by `parse_json`.
#[verifier::external_body]
fn model_of(v: serde_json::Value) -> Json {
    match v {
        serde_json::Value::Null => Json::Null,
        serde_json::Value::Bool(b) => Json::Bool(b),
        serde_json::Value::Number(n) => Json::Number(match (n.as_u64(), n.as_i64()) {
            (Some(u), _) => JsonNumber::PosInt(u),
            (None, Some(i)) => JsonNumber::NegInt(i),
            (None, None) => JsonNumber::Float,
        }),
        serde_json::Value::String(s) => Json::Str(s),
        serde_json::Value::Array(a) => Json::Array(a.into_iter().map(model_of).collect()),
        serde_json::Value::Object(m) => Json::Object(m.into_iter().map(|(k, x)| (k, model_of(x))).collect()),
    }
}

impl Json {
    /// Parses `bytes` as one JSON document.
    pub fn parse(bytes: &[u8]) -> (r: Option<Json>)
        ensures
            r == json_of(bytes@),
    {
        match parse_json(bytes) {
            Ok(j) => Some(j),
            Err(_) => None,
        }
    }
}

} // verus!
