//! The JSON document of a store: one object, each key a member name and
//! each value a JSON string. The encoding itself is `serde_json`'s.

use vstd::prelude::*;
use crate::app::App;
use crate::store::{
    as_map, key_index, keys_distinct, lemma_key_index, lemma_put_as_map, put, Pairs, Store,
};

verus! {

/// `serde_json::Map`, the object that is handed to the encoder.
#[verifier::external_type_specification]
#[verifier::external_body]
#[verifier::reject_recursive_types(K)]
#[verifier::reject_recursive_types(V)]
pub struct ExJsonObject<K, V>(serde_json::Map<K, V>);

/// `serde_json::Value`, the type of an object's members.
#[verifier::external_type_specification]
#[verifier::external_body]
pub struct ExJsonValue(serde_json::Value);

/// `serde_json::Error`, what the encoder fails with.
#[verifier::external_type_specification]
#[verifier::external_body]
pub struct ExJsonError(serde_json::Error);

/// The members of a JSON object as plain values: member name to value.
pub type Members = Map<Seq<char>, Seq<char>>;

/// The members of a JSON object whose values are all strings.
pub uninterp spec fn object_members(obj: serde_json::Map<String, serde_json::Value>) -> Members;

/// What `serde_json::to_string_pretty` gives for an object with the given
/// members: its text, or `None` where it fails.
pub uninterp spec fn pretty_json(members: Members) -> Option<Seq<char>>;

/// `serde_json::Map::new`: an object without members.
#[verifier::external_body]
fn new_object() -> (r: serde_json::Map<String, serde_json::Value>)
    ensures
        object_members(r) == Members::empty(),
{
    serde_json::Map::new()
}

/// `serde_json::Map::insert`, with a string as the value: afterwards the
/// object has the member, with that value, in place of any member of the
/// same name, and its other members are as before.
#[verifier::external_body]
fn set_member(obj: &mut serde_json::Map<String, serde_json::Value>, name: String, value: String)
    ensures
        object_members(*final(obj)) == object_members(*old(obj)).insert(name@, value@),
{
    obj.insert(name, serde_json::Value::String(value));
}

/// `serde_json::to_string_pretty` on an object: whether it succeeds, and
/// the text where it does, depend on the object's members alone, which
/// the encoder writes in the order of their names. Nothing is claimed
/// about the members on which it succeeds.
#[verifier::external_body]
fn encode_pretty(obj: &serde_json::Map<String, serde_json::Value>) -> (r: Result<
    String,
    serde_json::Error,
>)
    ensures
        r matches Ok(text) ==> pretty_json(object_members(*obj)) == Some(text@),
        r.is_err() ==> pretty_json(object_members(*obj)).is_none(),
{
    serde_json::to_string_pretty(obj)
}

/// The `Display` text of a `serde_json::Error`. Nothing is claimed of it.
#[verifier::external_body]
fn error_text(error: &serde_json::Error) -> String {
    error.to_string()
}

/// The encoder failed; `message` is its own description of the failure.
pub struct EncodeError {
    pub message: String,
}

/// A prefix of distinct keys, lengthened by one pair, is as a map the
/// prefix with that pair inserted.
pub proof fn lemma_as_map_prefix(s: Pairs, n: int)
    requires
        keys_distinct(s),
        0 <= n < s.len(),
    ensures
        as_map(s.subrange(0, n + 1)) == as_map(s.subrange(0, n)).insert(s[n].0, s[n].1),
{
    let shorter = s.subrange(0, n);
    let longer = s.subrange(0, n + 1);
    lemma_key_index(shorter, s[n].0);
    if key_index(shorter, s[n].0).is_some() {
        let i = key_index(shorter, s[n].0).unwrap();
        assert(shorter[i] == s[i]);
    }
    assert(put(shorter, s[n].0, s[n].1) =~= longer);
    lemma_put_as_map(shorter, s[n].0, s[n].1);
}

/// The JSON object with one member for each pair of the store.
pub fn to_object(store: &Store) -> (r: serde_json::Map<String, serde_json::Value>)
    requires
        store.wf(),
    ensures
        object_members(r) == as_map(store@),
{
    let mut obj = new_object();
    let count: usize = store.len();
    let mut i: usize = 0;
    assert(as_map(store@.subrange(0, 0)) =~= Members::empty());
    while i < count
        invariant
            store.wf(),
            count == store@.len(),
            i <= count,
            object_members(obj) == as_map(store@.subrange(0, i as int)),
        decreases count - i,
    {
        match store.entry(i) {
            Some((key, value)) => {
                proof {
                    lemma_as_map_prefix(store@, i as int);
                }
                set_member(&mut obj, key.clone(), value.clone());
            },
            None => {},
        }
        i = i + 1;
    }
    assert(store@.subrange(0, i as int) =~= store@);
    obj
}

/// What the session hands on from the encoder's answer: the text as it
/// is, or the failure with its description.
pub fn document_of(answer: Result<String, serde_json::Error>) -> (r: Result<String, EncodeError>)
    ensures
        match answer {
            Ok(text) => r == Ok::<String, EncodeError>(text),
            Err(_) => r.is_err(),
        },
{
    match answer {
        Ok(text) => Ok(text),
        Err(error) => Err(EncodeError { message: error_text(&error) }),
    }
}

impl App {
    /// The store as a pretty-printed JSON object, ready to be written out.
    /// The object handed to the encoder has exactly the store's pairs as
    /// its members. The result is the encoder's text for them where it
    /// gives one, and a failure only where the encoder fails on them.
    pub fn print_json(&self) -> (r: Result<String, EncodeError>)
        requires
            self.wf(),
        ensures
            r matches Ok(text) ==> pretty_json(as_map(self@.pairs)) == Some(text@),
            r.is_err() ==> pretty_json(as_map(self@.pairs)).is_none(),
    {
        let obj = to_object(&self.pairs);
        document_of(encode_pretty(&obj))
    }
}

} // verus!
