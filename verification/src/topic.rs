//! Topic types: the values of an application that cross the engine as JSON.

use vstd::prelude::*;
use crate::error::ConnectorError;
use crate::text::{last_segment, segment};

verus! {

/// The error with which `serde_json` turns a text or a value down. It is kept
/// as it comes, so that it still names the place and the field at fault.
#[verifier::external_type_specification]
#[verifier::external_body]
pub struct ExJsonError(serde_json::Error);

/// A type whose values cross the engine as JSON.
///
/// An implementation pairs `to_json` with `from_json` so that a value comes
/// back from its own text unchanged, and `from_json` turns down a text that
/// lacks a field or holds one of another type instead of filling it in.
pub trait TopicType: Sized {
    /// The path under which the type is declared, such as
    /// `shapes::ShapeType`. It belongs to the type: it is the same for every
    /// value and every call. An implementation that Verus reads states it;
    /// for any other it is whatever `type_path` answers.
    open spec fn declared_path() -> Seq<char> {
        arbitrary()
    }

    /// Answers [`TopicType::declared_path`].
    fn type_path() -> (path: String)
        ensures
            path@ == Self::declared_path(),
    ;

    /// The name of the type, without the path of the module that holds it:
    /// the last segment of [`TopicType::declared_path`], whatever the value.
    fn name(&self) -> (name: String)
        ensures
            name@ == last_segment(Self::declared_path()),
    {
        let path = Self::type_path();
        segment(path.as_str())
    }

    /// The JSON text of this value.
    fn to_json(&self) -> Result<String, serde_json::Error>;

    /// The value that a JSON text describes.
    fn from_json(json: &str) -> Result<Self, serde_json::Error>;
}

/// Why an operation on a topic type failed.
#[derive(Debug)]
pub enum TopicError {
    /// The value has no JSON text.
    Encode(serde_json::Error),
    /// The text does not describe a value of the type.
    Decode(serde_json::Error),
    /// The session or the engine refused.
    Connector(ConnectorError),
}

/// What becomes of a value that was to be encoded: its text, or the `Encode`
/// error that holds what the codec said.
pub open spec fn encoded_of(text: Result<String, serde_json::Error>) -> Result<String, TopicError> {
    match text {
        Ok(json) => Ok(json),
        Err(error) => Err(TopicError::Encode(error)),
    }
}

/// Computes [`encoded_of`].
pub fn encoded(text: Result<String, serde_json::Error>) -> (r: Result<String, TopicError>)
    ensures
        r == encoded_of(text),
{
    match text {
        Ok(json) => Ok(json),
        Err(error) => Err(TopicError::Encode(error)),
    }
}

/// What becomes of a text that was to be decoded: its value, or the `Decode`
/// error that holds what the codec said.
pub open spec fn decoded_of<T>(value: Result<T, serde_json::Error>) -> Result<T, TopicError> {
    match value {
        Ok(sample) => Ok(sample),
        Err(error) => Err(TopicError::Decode(error)),
    }
}

/// Computes [`decoded_of`].
pub fn decoded<T>(value: Result<T, serde_json::Error>) -> (r: Result<T, TopicError>)
    ensures
        r == decoded_of(value),
{
    match value {
        Ok(sample) => Ok(sample),
        Err(error) => Err(TopicError::Decode(error)),
    }
}

/// Whether `to_json` may answer `outcome` for `value`.
pub open spec fn encodes<T: TopicType>(value: &T, outcome: Result<String, serde_json::Error>) -> bool {
    call_ensures(T::to_json, (value,), outcome)
}

/// Whether `from_json` may answer `outcome` for a text that reads `json`.
pub open spec fn decodes<T: TopicType>(json: Seq<char>, outcome: Result<T, serde_json::Error>) -> bool {
    exists|given: &str| given@ == json && #[trigger] call_ensures(T::from_json, (given,), outcome)
}

/// Whether encoding `value` may end in `r`: in the text that `to_json`
/// answered, or in the `Encode` error that holds what it answered instead.
pub open spec fn encode_yields<T: TopicType>(value: &T, r: Result<String, TopicError>) -> bool {
    exists|outcome: Result<String, serde_json::Error>|
        #[trigger] encodes(value, outcome) && r == encoded_of(outcome)
}

/// Whether decoding a text that reads `json` may end in `r`: in the value
/// that `from_json` answered, or in the `Decode` error that holds what it
/// answered instead.
pub open spec fn decode_yields<T: TopicType>(json: Seq<char>, r: Result<T, TopicError>) -> bool {
    exists|outcome: Result<T, serde_json::Error>|
        #[trigger] decodes(json, outcome) && r == decoded_of(outcome)
}

/// The text of `value`, as the codec of `T` encodes it.
pub fn encode<T: TopicType>(value: &T) -> (r: Result<String, TopicError>)
    ensures
        encode_yields(value, r),
{
    let outcome = value.to_json();
    assert(encodes(value, outcome));
    encoded(outcome)
}

/// The value that `json` describes, as the codec of `T` decodes it.
pub fn decode<T: TopicType>(json: &str) -> (r: Result<T, TopicError>)
    ensures
        decode_yields(json@, r),
{
    let outcome = T::from_json(json);
    assert(call_ensures(T::from_json, (json,), outcome));
    assert(decodes(json@, outcome));
    decoded(outcome)
}

/// Whether the codec of `T` loses nothing: whatever text `to_json` gives for
/// a value, `from_json` gives that value for it, and nothing else.
pub open spec fn lossless<T: TopicType>() -> bool {
    forall|value: &T, json: String, outcome: Result<T, serde_json::Error>|
        #[trigger] encodes(value, Ok(json)) && #[trigger] decodes(json@, outcome) ==> outcome == Ok::<
            T,
            serde_json::Error,
        >(*value)
}

/// Decoding what was encoded gives the value back. The codec is the
/// implementor's, so this holds of the topic types whose codec loses nothing.
pub proof fn lemma_decode_inverts_encode<T: TopicType>(
    value: &T,
    json: String,
    back: Result<T, TopicError>,
)
    requires
        lossless::<T>(),
        encode_yields(value, Ok(json)),
        decode_yields(json@, back),
    ensures
        back == Ok::<T, TopicError>(*value),
{
}

/// Whether `field` is one of the fields `known`.
pub open spec fn is_known(field: Seq<char>, known: Seq<String>) -> bool {
    exists|k: int| 0 <= k < known.len() && (#[trigger] known[k])@ == field
}

/// Decides [`is_known`].
fn knows(field: &String, known: &[String]) -> (found: bool)
    ensures
        found == is_known(field@, known@),
{
    let mut k: usize = 0;
    while k < known.len()
        invariant
            k <= known.len(),
            forall|j: int| 0 <= j < k ==> (#[trigger] known@[j])@ != field@,
        decreases known.len() - k,
    {
        if known[k].eq(field) {
            return true;
        }
        k = k + 1;
    }
    false
}

/// The place of the first field of a text that its type does not have, if
/// there is one: the first of `given`, the fields that the text names, that
/// is none of `known`, the fields that the decoded value has. A codec that
/// fills in or passes over what it does not know is held to the text with
/// it: a text with such a field describes no value of the type.
pub fn first_unknown(given: &[String], known: &[String]) -> (place: Option<usize>)
    ensures
        place matches Some(at) ==> at < given@.len() && !is_known(given@[at as int]@, known@)
            && forall|j: int| 0 <= j < at ==> is_known((#[trigger] given@[j])@, known@),
        place is None ==> forall|j: int|
            0 <= j < given@.len() ==> is_known((#[trigger] given@[j])@, known@),
{
    let mut at: usize = 0;
    while at < given.len()
        invariant
            at <= given.len(),
            forall|j: int| 0 <= j < at ==> is_known((#[trigger] given@[j])@, known@),
        decreases given.len() - at,
    {
        if !knows(&given[at], known) {
            return Some(at);
        }
        at = at + 1;
    }
    None
}

} // verus!
