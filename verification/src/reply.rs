//! What the engine's answers mean: from the return code, and the value that
//! came with it, to the result of the operation.

use vstd::prelude::*;
use crate::diagnosis::Diagnosis;
use crate::engine::{count, count_of, EngineCall};
use crate::error::{ConnectorError, DDSError, RETCODE_OK, RETCODE_TIMEOUT};

verus! {

/// The result of an operation that the engine answers with a return code
/// alone: done on success, `FfiError` on every other code.
pub open spec fn status_of(code: i32) -> Result<(), ConnectorError> {
    if code == RETCODE_OK {
        Ok(())
    } else {
        Err(ConnectorError::FfiError)
    }
}

/// Computes [`status_of`].
pub fn status(code: i32) -> (r: Result<(), ConnectorError>)
    ensures
        r == status_of(code),
{
    if code == RETCODE_OK {
        Ok(())
    } else {
        Err(ConnectorError::FfiError)
    }
}

/// A text as the engine hands it over.
#[derive(Debug, PartialEq, Eq)]
pub enum EngineText {
    /// The engine gave no text.
    Absent,
    /// The engine gave bytes that are not UTF-8.
    Garbled,
    /// The engine gave this text.
    Text(String),
}

/// The result of an operation that the engine answers with a return code and
/// a text: the text on success, `missing` where the engine succeeded and had
/// no text to give, `InvalidString` where what it gave is not UTF-8, and
/// `FfiError` on every other code.
pub open spec fn text_of(code: i32, given: EngineText, missing: ConnectorError) -> Result<
    String,
    ConnectorError,
> {
    if code != RETCODE_OK {
        Err(ConnectorError::FfiError)
    } else {
        match given {
            EngineText::Text(text) => Ok(text),
            EngineText::Garbled => Err(ConnectorError::InvalidString),
            EngineText::Absent => Err(missing),
        }
    }
}

/// Computes [`text_of`].
pub fn text(code: i32, given: EngineText, missing: ConnectorError) -> (r: Result<
    String,
    ConnectorError,
>)
    ensures
        r == text_of(code, given, missing),
{
    if code != RETCODE_OK {
        Err(ConnectorError::FfiError)
    } else {
        match given {
            EngineText::Text(text) => Ok(text),
            EngineText::Garbled => Err(ConnectorError::InvalidString),
            EngineText::Absent => Err(missing),
        }
    }
}

/// The result of a read that the engine answers with a return code and a
/// value: the value on success. On every other code the cause is still to be
/// found, and the result is the search for it ([`Diagnosis::begins`]).
pub open spec fn read_of<'a, T>(call: EngineCall<'a>, code: i32, value: T) -> Result<
    T,
    Diagnosis<'a>,
> {
    if code == RETCODE_OK {
        Ok(value)
    } else {
        Err(Diagnosis::begins(call))
    }
}

/// Computes [`read_of`].
pub fn read<'a, T>(call: EngineCall<'a>, code: i32, value: T) -> (r: Result<T, Diagnosis<'a>>)
    ensures
        r == read_of(call, code, value),
{
    if code == RETCODE_OK {
        Ok(value)
    } else {
        Err(Diagnosis::begin(call))
    }
}

/// The result of a read that the engine answers with a return code and a
/// text: the text on success. Where the engine succeeded and gave no text,
/// the cause is `missing`, and `InvalidString` where what it gave is not
/// UTF-8. On every other code the cause is still to be found, and the result
/// is the search for it ([`Diagnosis::begins`]).
pub open spec fn read_text_of<'a>(
    call: EngineCall<'a>,
    code: i32,
    given: EngineText,
    missing: ConnectorError,
) -> Result<String, Diagnosis<'a>> {
    if code != RETCODE_OK {
        Err(Diagnosis::begins(call))
    } else {
        match given {
            EngineText::Text(text) => Ok(text),
            EngineText::Garbled => Err(Diagnosis::settled(call, ConnectorError::InvalidString)),
            EngineText::Absent => Err(Diagnosis::settled(call, missing)),
        }
    }
}

/// Computes [`read_text_of`].
pub fn read_text<'a>(
    call: EngineCall<'a>,
    code: i32,
    given: EngineText,
    missing: ConnectorError,
) -> (r: Result<String, Diagnosis<'a>>)
    ensures
        r == read_text_of(call, code, given, missing),
{
    if code != RETCODE_OK {
        Err(Diagnosis::begin(call))
    } else {
        match given {
            EngineText::Text(text) => Ok(text),
            EngineText::Garbled => Err(Diagnosis::settle(call, ConnectorError::InvalidString)),
            EngineText::Absent => Err(Diagnosis::settle(call, missing)),
        }
    }
}

/// The number of samples that the engine holds for an entity, as it answered
/// `call`: the count that the bits of its double stand for
/// ([`count_of`]). An answer that is no count is an `FfiError`. A count that
/// the engine refused is diagnosed: `ConfigError` where the session has no
/// entity of the name, `FfiError` else.
pub open spec fn sample_count_of<'a>(call: EngineCall<'a>, code: i32, count_bits: u64) -> Result<
    usize,
    Diagnosis<'a>,
> {
    if code != RETCODE_OK {
        Err(Diagnosis::begins(call))
    } else {
        match count_of(count_bits) {
            Some(count) => Ok(count),
            None => Err(Diagnosis::settled(call, ConnectorError::FfiError)),
        }
    }
}

/// Computes [`sample_count_of`].
pub fn sample_count<'a>(call: EngineCall<'a>, code: i32, count_bits: u64) -> (r: Result<
    usize,
    Diagnosis<'a>,
>)
    ensures
        r == sample_count_of(call, code, count_bits),
{
    if code != RETCODE_OK {
        Err(Diagnosis::begin(call))
    } else {
        match count(count_bits) {
            Some(count) => Ok(count),
            None => Err(Diagnosis::settle(call, ConnectorError::FfiError)),
        }
    }
}

/// The boolean that a flag of a sample's meta-data stands for: one is true,
/// zero is false, and any other value means that the field is there and is
/// no boolean (`FieldNotBoolean`).
pub open spec fn boolean_from_infos_of(code: i32, value: i32) -> Result<bool, ConnectorError> {
    if code != RETCODE_OK {
        Err(ConnectorError::FfiError)
    } else if value == 1 {
        Ok(true)
    } else if value == 0 {
        Ok(false)
    } else {
        Err(ConnectorError::FieldNotBoolean)
    }
}

/// Computes [`boolean_from_infos_of`].
pub fn boolean_from_infos(code: i32, value: i32) -> (r: Result<bool, ConnectorError>)
    ensures
        r == boolean_from_infos_of(code, value),
{
    if code != RETCODE_OK {
        Err(ConnectorError::FfiError)
    } else if value == 1 {
        Ok(true)
    } else if value == 0 {
        Ok(false)
    } else {
        Err(ConnectorError::FieldNotBoolean)
    }
}

/// The boolean field of a sample, as the engine answered `call`: true for
/// every flag but zero. A read that the engine refused is diagnosed: the
/// sample is not there, the field is not there, or it is no boolean.
pub fn boolean_from_sample<'a>(call: EngineCall<'a>, code: i32, value: i32) -> (r: Result<
    bool,
    Diagnosis<'a>,
>)
    ensures
        r == read_of(call, code, value != 0),
{
    read(call, code, value != 0)
}

/// The number field of a sample, as the engine answered `call`, by the bits
/// of its double. A read that the engine refused is diagnosed: the sample is
/// not there, the field is not there, or it is no number.
pub fn number_from_sample<'a>(call: EngineCall<'a>, code: i32, value: u64) -> (r: Result<
    u64,
    Diagnosis<'a>,
>)
    ensures
        r == read_of(call, code, value),
{
    read(call, code, value)
}

/// The string field of a sample, as the engine answered `call`;
/// `InvalidString` where the engine succeeded and had none. A read that the
/// engine refused is diagnosed: the sample is not there, the field is not
/// there, or it is no string.
pub fn string_from_sample<'a>(call: EngineCall<'a>, code: i32, value: EngineText) -> (r: Result<
    String,
    Diagnosis<'a>,
>)
    ensures
        r == read_text_of(call, code, value, ConnectorError::InvalidString),
{
    read_text(call, code, value, ConnectorError::InvalidString)
}

/// The meta-data of a sample as JSON; `FieldNotFound` where the engine had
/// none.
pub fn json_from_infos(code: i32, json: EngineText) -> (r: Result<String, ConnectorError>)
    ensures
        r == text_of(code, json, ConnectorError::FieldNotFound),
{
    text(code, json, ConnectorError::FieldNotFound)
}

/// The whole sample as JSON, as the engine answered `call`; `SampleNotFound`
/// where the engine succeeded and had none. A read that the engine refused is
/// diagnosed: the sample is not there, or the failure is the engine's own.
pub fn json_sample<'a>(call: EngineCall<'a>, code: i32, json: EngineText) -> (r: Result<
    String,
    Diagnosis<'a>,
>)
    ensures
        r == read_text_of(call, code, json, ConnectorError::SampleNotFound),
{
    read_text(call, code, json, ConnectorError::SampleNotFound)
}

/// One member of a sample as JSON, as the engine answered `call`;
/// `MemberNotFound` where the engine succeeded and had none. A read that the
/// engine refused is diagnosed: the sample is not there, the member is not
/// there, or it is not one that reads as JSON.
pub fn json_member<'a>(call: EngineCall<'a>, code: i32, json: EngineText) -> (r: Result<
    String,
    Diagnosis<'a>,
>)
    ensures
        r == read_text_of(call, code, json, ConnectorError::MemberNotFound),
{
    read_text(call, code, json, ConnectorError::MemberNotFound)
}

/// The list of matched publications or subscriptions as JSON;
/// `InvalidString` where the engine succeeded and had no list to give.
pub fn matched_entities(code: i32, json: EngineText) -> (r: Result<String, ConnectorError>)
    ensures
        r == text_of(code, json, ConnectorError::InvalidString),
{
    text(code, json, ConnectorError::InvalidString)
}

/// The address of a sample in the engine's memory; `SampleNotFound` where the
/// engine answered zero.
pub fn native_sample(address: usize) -> (r: Result<usize, ConnectorError>)
    ensures
        address == 0 ==> r == Err::<usize, _>(ConnectorError::SampleNotFound),
        address != 0 ==> r == Ok::<_, ConnectorError>(address),
{
    if address == 0 {
        Err(ConnectorError::SampleNotFound)
    } else {
        Ok(address)
    }
}

/// The engine's text on the last failure, empty where it had none to give.
pub fn last_error(message: EngineText) -> (r: String)
    ensures
        message matches EngineText::Text(text) ==> r == text,
        !(message is Text) ==> r@ == Seq::<char>::empty(),
{
    match message {
        EngineText::Text(text) => text,
        _ => String::new(),
    }
}

/// Whether a wait failed. A wait that elapsed did not: the engine answers it
/// with the code for a timeout, and that is no failure.
pub open spec fn wait_failed(code: i32) -> bool {
    match DDSError::from_code(code) {
        None => false,
        Some(DDSError::Timeout) => false,
        Some(_) => true,
    }
}

/// Computes [`wait_failed`].
pub fn is_wait_failure(code: i32) -> (failed: bool)
    ensures
        failed == wait_failed(code),
{
    match DDSError::from_code(code) {
        None => false,
        Some(DDSError::Timeout) => false,
        Some(_) => true,
    }
}

/// The result of a wait for data that reports a count. The engine's answer
/// is the count; it fails the wait with a negative answer and with no other,
/// so `FfiError` stands for the negative answers alone. A wait that elapsed
/// counted nothing: its code gives zero.
pub open spec fn data_count_of(answer: i32) -> Result<u32, ConnectorError> {
    if answer < 0 {
        Err(ConnectorError::FfiError)
    } else if answer == RETCODE_TIMEOUT {
        Ok(0u32)
    } else {
        Ok(answer as u32)
    }
}

/// Computes [`data_count_of`].
pub fn data_count(answer: i32) -> (r: Result<u32, ConnectorError>)
    ensures
        r == data_count_of(answer),
        r is Err <==> answer < 0,
{
    if answer < 0 {
        Err(ConnectorError::FfiError)
    } else if answer == RETCODE_TIMEOUT {
        Ok(0)
    } else {
        Ok(answer as u32)
    }
}

/// The result of a wait for data on the session: done, whether data arrived
/// or the wait elapsed, and `FfiError` where the wait failed.
pub open spec fn data_arrival_of(code: i32) -> Result<(), ConnectorError> {
    if wait_failed(code) {
        Err(ConnectorError::FfiError)
    } else {
        Ok(())
    }
}

/// Computes [`data_arrival_of`].
pub fn data_arrival(code: i32) -> (r: Result<(), ConnectorError>)
    ensures
        r == data_arrival_of(code),
{
    if is_wait_failure(code) {
        Err(ConnectorError::FfiError)
    } else {
        Ok(())
    }
}

/// Whether a wait for data found any: true where data arrived, false where
/// the wait elapsed with none, and `FfiError` where the wait failed.
pub open spec fn data_arrived_of(code: i32) -> Result<bool, ConnectorError> {
    if wait_failed(code) {
        Err(ConnectorError::FfiError)
    } else {
        Ok(code == RETCODE_OK)
    }
}

/// Computes [`data_arrived_of`].
pub fn data_arrived(code: i32) -> (r: Result<bool, ConnectorError>)
    ensures
        r == data_arrived_of(code),
{
    if is_wait_failure(code) {
        Err(ConnectorError::FfiError)
    } else {
        Ok(code == RETCODE_OK)
    }
}

/// The result of a wait for data on one reader: zero, whether data arrived or
/// the wait elapsed, and `FfiError` where the wait failed.
pub open spec fn reader_data_of(code: i32) -> Result<i32, ConnectorError> {
    if wait_failed(code) {
        Err(ConnectorError::FfiError)
    } else {
        Ok(0i32)
    }
}

/// Computes [`reader_data_of`].
pub fn reader_data(code: i32) -> (r: Result<i32, ConnectorError>)
    ensures
        r == reader_data_of(code),
{
    if is_wait_failure(code) {
        Err(ConnectorError::FfiError)
    } else {
        Ok(0)
    }
}

/// The result of a wait for a change of the matched publications or
/// subscriptions: the change that the engine counted, which is negative where
/// peers left; no change where the wait elapsed; `FfiError` where the wait
/// failed.
pub open spec fn match_change_of(code: i32, change: i32) -> Result<i32, ConnectorError> {
    if wait_failed(code) {
        Err(ConnectorError::FfiError)
    } else if code == RETCODE_TIMEOUT {
        Ok(0i32)
    } else {
        Ok(change)
    }
}

/// Computes [`match_change_of`].
pub fn match_change(code: i32, change: i32) -> (r: Result<i32, ConnectorError>)
    ensures
        r == match_change_of(code, change),
{
    if is_wait_failure(code) {
        Err(ConnectorError::FfiError)
    } else if code == RETCODE_TIMEOUT {
        Ok(0)
    } else {
        Ok(change)
    }
}

/// The result of a wait for acknowledgments: what the engine answered, and
/// `FfiError` where that is negative, which no count is.
pub open spec fn acknowledgments_of(answer: i32) -> Result<i32, ConnectorError> {
    if answer < 0 {
        Err(ConnectorError::FfiError)
    } else {
        Ok(answer)
    }
}

/// Computes [`acknowledgments_of`].
pub fn acknowledgments(answer: i32) -> (r: Result<i32, ConnectorError>)
    ensures
        r == acknowledgments_of(answer),
{
    if answer < 0 {
        Err(ConnectorError::FfiError)
    } else {
        Ok(answer)
    }
}

/// A wait that elapses with nothing to report succeeds, whatever was waited
/// for: data, a change of the matches, or acknowledgments.
pub proof fn lemma_timeout_is_no_failure(change: i32)
    ensures
        !wait_failed(RETCODE_TIMEOUT),
        data_count_of(RETCODE_TIMEOUT) == Ok::<_, ConnectorError>(0u32),
        data_arrival_of(RETCODE_TIMEOUT) == Ok::<_, ConnectorError>(()),
        reader_data_of(RETCODE_TIMEOUT) == Ok::<_, ConnectorError>(0i32),
        data_arrived_of(RETCODE_TIMEOUT) == Ok::<_, ConnectorError>(false),
        match_change_of(RETCODE_TIMEOUT, change) == Ok::<_, ConnectorError>(0i32),
        acknowledgments_of(RETCODE_TIMEOUT) is Ok,
{
}

/// A flag that was staged for a boolean reads back as that boolean.
pub proof fn lemma_flag_reads_back(call: EngineCall<'_>, value: bool)
    ensures
        read_of(call, RETCODE_OK, crate::options::flag_of(value) != 0) == Ok::<_, Diagnosis<'_>>(
            value,
        ),
        boolean_from_infos_of(RETCODE_OK, crate::options::flag_of(value)) == Ok::<
            _,
            ConnectorError,
        >(value),
{
}

} // verus!
