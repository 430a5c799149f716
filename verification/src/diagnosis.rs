//! Why the engine refused a read.
//!
//! The engine answers a read that it refuses with a return code that does not
//! say why. The cause is found by asking on: whether the entity has a sample
//! at the index, whether another accessor can read the field, whether the
//! session has an entity of the name at all. A [`Diagnosis`] yields these
//! questions one by one and settles on the cause as soon as the answers
//! allow.

use vstd::prelude::*;
use crate::engine::{count, count_of, EngineCall};
use crate::error::{ConnectorError, RETCODE_OK};

verus! {

/// The four ways to read a field of a sample, in the order in which a
/// diagnosis tries them.
#[derive(Debug, Clone, Copy, PartialEq, Eq, Structural)]
pub enum Accessor {
    Json,
    String,
    Number,
    Boolean,
}

/// The two kinds of entity that a session resolves by name.
#[derive(Debug, Clone, Copy, PartialEq, Eq, Structural)]
pub enum Endpoint {
    Reader,
    Writer,
}

/// How far a diagnosis has come.
#[derive(Debug, Clone, Copy, PartialEq, Eq, Structural)]
pub enum Stage {
    /// Asking how many samples the entity holds.
    Counting,
    /// Asking whether the accessor can read the field.
    Probing(Accessor),
    /// Asking whether the session has such a reader, then such a writer.
    Resolving(Endpoint),
    /// The cause is known.
    Settled(ConnectorError),
}

/// What the engine answered to a question of a diagnosis: the return code,
/// the count where samples were counted, whether a text came with it, and the
/// address where an entity was resolved. The parts that a question has no
/// answer for are not read.
#[derive(Debug, Clone, Copy, PartialEq, Eq, Structural)]
pub struct ProbeAnswer {
    pub code: i32,
    pub count: usize,
    pub has_text: bool,
    pub address: usize,
}

impl ProbeAnswer {
    /// The answer that the engine gave to the question for the count, with
    /// the count read from the bits of its double. A success with what is no
    /// count counts as a failure of the engine.
    pub open spec fn given(code: i32, count_bits: u64, has_text: bool, address: usize) -> ProbeAnswer {
        match count_of(count_bits) {
            Some(count) => ProbeAnswer { code, count, has_text, address },
            None => ProbeAnswer {
                code: if code == RETCODE_OK {
                    1i32
                } else {
                    code
                },
                count: 0,
                has_text,
                address,
            },
        }
    }

    /// Computes [`ProbeAnswer::given`].
    pub fn of(code: i32, count_bits: u64, has_text: bool, address: usize) -> (answer: ProbeAnswer)
        ensures
            answer == Self::given(code, count_bits, has_text, address),
    {
        match count(count_bits) {
            Some(count) => ProbeAnswer { code, count, has_text, address },
            None => {
                let failed: i32 = if code == RETCODE_OK {
                    1
                } else {
                    code
                };
                ProbeAnswer { code: failed, count: 0, has_text, address }
            },
        }
    }
}

/// What the engine would answer to each question of a diagnosis: the code and
/// count of the samples, which accessors can read the field, and whether the
/// session has a reader or a writer of the name.
#[derive(Debug, Clone, Copy, PartialEq, Eq, Structural)]
pub struct Evidence {
    pub count_code: i32,
    pub count: usize,
    pub json: bool,
    pub string: bool,
    pub number: bool,
    pub boolean: bool,
    pub reader: bool,
    pub writer: bool,
}

/// The accessor with which a call reads a field of a sample, if it does.
pub open spec fn accessor_of(call: EngineCall<'_>) -> Option<Accessor> {
    match call {
        EngineCall::GetJsonMember { .. } => Some(Accessor::Json),
        EngineCall::GetStringFromSample { .. } => Some(Accessor::String),
        EngineCall::GetNumberFromSample { .. } => Some(Accessor::Number),
        EngineCall::GetBooleanFromSample { .. } => Some(Accessor::Boolean),
        _ => None,
    }
}

/// Whether a call reads a sample: one of its fields, or the whole of it.
pub open spec fn reads_sample(call: EngineCall<'_>) -> bool {
    accessor_of(call) is Some || call is GetJsonSample
}

/// The index of the sample that a call reads.
pub open spec fn index_read(call: EngineCall<'_>) -> i32 {
    match call {
        EngineCall::GetJsonMember { index, .. } => index,
        EngineCall::GetStringFromSample { index, .. } => index,
        EngineCall::GetNumberFromSample { index, .. } => index,
        EngineCall::GetBooleanFromSample { index, .. } => index,
        EngineCall::GetJsonSample { index, .. } => index,
        _ => 0i32,
    }
}

/// The error for a field that is there and is not what the accessor reads.
pub open spec fn wrong_type(asked: Accessor) -> ConnectorError {
    match asked {
        Accessor::Json => ConnectorError::MemberNotJson,
        Accessor::String => ConnectorError::FieldNotString,
        Accessor::Number => ConnectorError::FieldNotNumber,
        Accessor::Boolean => ConnectorError::FieldNotBoolean,
    }
}

/// The error for a field that the sample does not have.
pub open spec fn not_found(asked: Accessor) -> ConnectorError {
    match asked {
        Accessor::Json => ConnectorError::MemberNotFound,
        _ => ConnectorError::FieldNotFound,
    }
}

/// Whether an accessor other than `asked` can read the field.
pub open spec fn found_by_another(asked: Accessor, evidence: Evidence) -> bool {
    ||| asked != Accessor::Json && evidence.json
    ||| asked != Accessor::String && evidence.string
    ||| asked != Accessor::Number && evidence.number
    ||| asked != Accessor::Boolean && evidence.boolean
}

/// The error for a call that the engine refused on an entity: `ConfigError`
/// where the session has neither a reader nor a writer of the name, and
/// `FfiError` where it has one, so that the failure is the engine's own.
pub open spec fn entity_cause(evidence: Evidence) -> ConnectorError {
    if evidence.reader || evidence.writer {
        ConnectorError::FfiError
    } else {
        ConnectorError::ConfigError
    }
}

/// Why the engine refused the call `refused`, given what it answers to the
/// questions of a diagnosis.
///
/// - The samples cannot be counted: the cause lies with the entity
///   ([`entity_cause`]).
/// - The entity has no sample at the index: `SampleNotFound`.
/// - Another accessor can read the field: the field is there and of another
///   type ([`wrong_type`]).
/// - No accessor can read the field: it is not there ([`not_found`]).
/// - The sample is there and was to be read whole, or the call reads no
///   sample: `FfiError`.
pub open spec fn cause_of(refused: EngineCall<'_>, evidence: Evidence) -> ConnectorError {
    if refused is GetSampleCount {
        entity_cause(evidence)
    } else if !reads_sample(refused) {
        ConnectorError::FfiError
    } else if evidence.count_code != RETCODE_OK {
        entity_cause(evidence)
    } else if !(0 <= index_read(refused) < evidence.count) {
        ConnectorError::SampleNotFound
    } else {
        match accessor_of(refused) {
            None => ConnectorError::FfiError,
            Some(asked) => if found_by_another(asked, evidence) {
                wrong_type(asked)
            } else {
                not_found(asked)
            },
        }
    }
}

/// The accessor that a diagnosis tries first: the first that is not `asked`.
pub open spec fn first_probe(asked: Accessor) -> Accessor {
    if asked == Accessor::Json {
        Accessor::String
    } else {
        Accessor::Json
    }
}

/// The accessor that follows `probe`, if any.
pub open spec fn following(probe: Accessor) -> Option<Accessor> {
    match probe {
        Accessor::Json => Some(Accessor::String),
        Accessor::String => Some(Accessor::Number),
        Accessor::Number => Some(Accessor::Boolean),
        Accessor::Boolean => None,
    }
}

/// The accessor that a diagnosis tries after `probe`: the next that is not
/// `asked`, if any is left.
pub open spec fn next_probe(asked: Accessor, probe: Accessor) -> Option<Accessor> {
    match following(probe) {
        Some(next) => if next == asked {
            following(next)
        } else {
            Some(next)
        },
        None => None,
    }
}

/// Whether the answer shows that the accessor read the field: the engine
/// succeeded, and gave a text where the accessor reads one.
pub open spec fn found(probe: Accessor, answer: ProbeAnswer) -> bool {
    answer.code == RETCODE_OK && (probe == Accessor::Json || probe == Accessor::String
        ==> answer.has_text)
}

/// The search for the cause of a call that the engine refused.
#[derive(Debug, Clone, Copy, PartialEq, Eq)]
pub struct Diagnosis<'a> {
    /// The call that the engine refused.
    pub refused: EngineCall<'a>,
    /// How far the search has come.
    pub stage: Stage,
}

fn first(asked: Accessor) -> (probe: Accessor)
    ensures
        probe == first_probe(asked),
{
    match asked {
        Accessor::Json => Accessor::String,
        _ => Accessor::Json,
    }
}

fn follow(probe: Accessor) -> (next: Option<Accessor>)
    ensures
        next == following(probe),
{
    match probe {
        Accessor::Json => Some(Accessor::String),
        Accessor::String => Some(Accessor::Number),
        Accessor::Number => Some(Accessor::Boolean),
        Accessor::Boolean => None,
    }
}

fn same(left: Accessor, right: Accessor) -> (equal: bool)
    ensures
        equal == (left == right),
{
    match (left, right) {
        (Accessor::Json, Accessor::Json) => true,
        (Accessor::String, Accessor::String) => true,
        (Accessor::Number, Accessor::Number) => true,
        (Accessor::Boolean, Accessor::Boolean) => true,
        _ => false,
    }
}

fn next_after(asked: Accessor, probe: Accessor) -> (next: Option<Accessor>)
    ensures
        next == next_probe(asked, probe),
{
    match follow(probe) {
        Some(next) => if same(next, asked) {
            follow(next)
        } else {
            Some(next)
        },
        None => None,
    }
}

fn wrong(asked: Accessor) -> (error: ConnectorError)
    ensures
        error == wrong_type(asked),
{
    match asked {
        Accessor::Json => ConnectorError::MemberNotJson,
        Accessor::String => ConnectorError::FieldNotString,
        Accessor::Number => ConnectorError::FieldNotNumber,
        Accessor::Boolean => ConnectorError::FieldNotBoolean,
    }
}

fn absent(asked: Accessor) -> (error: ConnectorError)
    ensures
        error == not_found(asked),
{
    match asked {
        Accessor::Json => ConnectorError::MemberNotFound,
        _ => ConnectorError::FieldNotFound,
    }
}

/// The accessor of a call, as [`accessor_of`] says.
pub fn accessor(call: &EngineCall<'_>) -> (asked: Option<Accessor>)
    ensures
        asked == accessor_of(*call),
{
    match call {
        EngineCall::GetJsonMember { .. } => Some(Accessor::Json),
        EngineCall::GetStringFromSample { .. } => Some(Accessor::String),
        EngineCall::GetNumberFromSample { .. } => Some(Accessor::Number),
        EngineCall::GetBooleanFromSample { .. } => Some(Accessor::Boolean),
        _ => None,
    }
}


impl<'a> Diagnosis<'a> {
    /// Where the search for the cause of a refused call starts: at the count
    /// of the samples for a read of a sample, at the entity for a count that
    /// was refused itself. Of any other call no more is to be found than
    /// that the engine refused it (`FfiError`).
    pub open spec fn begins(refused: EngineCall<'a>) -> Diagnosis<'a> {
        Diagnosis {
            refused,
            stage: if reads_sample(refused) {
                Stage::Counting
            } else if refused is GetSampleCount {
                Stage::Resolving(Endpoint::Reader)
            } else {
                Stage::Settled(ConnectorError::FfiError)
            },
        }
    }

    /// A search that is over before it began, with `cause` for its result.
    pub open spec fn settled(refused: EngineCall<'a>, cause: ConnectorError) -> Diagnosis<'a> {
        Diagnosis { refused, stage: Stage::Settled(cause) }
    }

    /// Computes [`Diagnosis::begins`].
    pub fn begin(refused: EngineCall<'a>) -> (diagnosis: Diagnosis<'a>)
        ensures
            diagnosis == Self::begins(refused),
    {
        let stage = match refused {
            EngineCall::GetJsonMember { .. }
            | EngineCall::GetStringFromSample { .. }
            | EngineCall::GetNumberFromSample { .. }
            | EngineCall::GetBooleanFromSample { .. }
            | EngineCall::GetJsonSample { .. } => Stage::Counting,
            EngineCall::GetSampleCount { .. } => Stage::Resolving(Endpoint::Reader),
            _ => Stage::Settled(ConnectorError::FfiError),
        };
        Diagnosis { refused, stage }
    }

    /// Computes [`Diagnosis::settled`].
    pub fn settle(refused: EngineCall<'a>, cause: ConnectorError) -> (diagnosis: Diagnosis<'a>)
        ensures
            diagnosis == Self::settled(refused, cause),
    {
        Diagnosis { refused, stage: Stage::Settled(cause) }
    }

    /// The question that the search asks the engine now, or the cause where
    /// the search is over. Every question is about the entity, the sample and
    /// the field of the refused call.
    pub open spec fn question(&self) -> Result<EngineCall<'a>, ConnectorError> {
        match (self.stage, self.refused) {
            (Stage::Settled(cause), _) => Err(cause),
            (
                Stage::Counting,
                EngineCall::GetJsonMember { connector, entity_name, .. },
            )
            | (
                Stage::Counting,
                EngineCall::GetStringFromSample { connector, entity_name, .. },
            )
            | (
                Stage::Counting,
                EngineCall::GetNumberFromSample { connector, entity_name, .. },
            )
            | (
                Stage::Counting,
                EngineCall::GetBooleanFromSample { connector, entity_name, .. },
            )
            | (Stage::Counting, EngineCall::GetJsonSample { connector, entity_name, .. }) => Ok(
                EngineCall::GetSampleCount { connector, entity_name },
            ),
            (
                Stage::Probing(probe),
                EngineCall::GetJsonMember {
                    connector,
                    entity_name,
                    index,
                    member_name: field_name,
                },
            )
            | (
                Stage::Probing(probe),
                EngineCall::GetStringFromSample { connector, entity_name, index, field_name },
            )
            | (
                Stage::Probing(probe),
                EngineCall::GetNumberFromSample { connector, entity_name, index, field_name },
            )
            | (
                Stage::Probing(probe),
                EngineCall::GetBooleanFromSample { connector, entity_name, index, field_name },
            ) => Ok(
                match probe {
                    Accessor::Json => EngineCall::GetJsonMember {
                        connector,
                        entity_name,
                        index,
                        member_name: field_name,
                    },
                    Accessor::String => EngineCall::GetStringFromSample {
                        connector,
                        entity_name,
                        index,
                        field_name,
                    },
                    Accessor::Number => EngineCall::GetNumberFromSample {
                        connector,
                        entity_name,
                        index,
                        field_name,
                    },
                    Accessor::Boolean => EngineCall::GetBooleanFromSample {
                        connector,
                        entity_name,
                        index,
                        field_name,
                    },
                },
            ),
            (
                Stage::Resolving(endpoint),
                EngineCall::GetJsonMember { connector, entity_name, .. },
            )
            | (
                Stage::Resolving(endpoint),
                EngineCall::GetStringFromSample { connector, entity_name, .. },
            )
            | (
                Stage::Resolving(endpoint),
                EngineCall::GetNumberFromSample { connector, entity_name, .. },
            )
            | (
                Stage::Resolving(endpoint),
                EngineCall::GetBooleanFromSample { connector, entity_name, .. },
            )
            | (
                Stage::Resolving(endpoint),
                EngineCall::GetJsonSample { connector, entity_name, .. },
            )
            | (
                Stage::Resolving(endpoint),
                EngineCall::GetSampleCount { connector, entity_name },
            ) => Ok(
                match endpoint {
                    Endpoint::Reader => EngineCall::GetDatareader { connector, entity_name },
                    Endpoint::Writer => EngineCall::GetDatawriter { connector, entity_name },
                },
            ),
            _ => Err(ConnectorError::FfiError),
        }
    }

    /// Computes [`Diagnosis::question`]. A question about a call that the
    /// engine could be handed is one that it can be handed too.
    pub fn next(&self) -> (r: Result<EngineCall<'a>, ConnectorError>)
        ensures
            r == self.question(),
            self.refused.performable() ==> (r matches Ok(call) ==> call.performable()),
    {
        match (self.stage, self.refused) {
            (Stage::Settled(cause), _) => Err(cause),
            (
                Stage::Counting,
                EngineCall::GetJsonMember { connector, entity_name, .. },
            )
            | (
                Stage::Counting,
                EngineCall::GetStringFromSample { connector, entity_name, .. },
            )
            | (
                Stage::Counting,
                EngineCall::GetNumberFromSample { connector, entity_name, .. },
            )
            | (
                Stage::Counting,
                EngineCall::GetBooleanFromSample { connector, entity_name, .. },
            )
            | (Stage::Counting, EngineCall::GetJsonSample { connector, entity_name, .. }) => Ok(
                EngineCall::GetSampleCount { connector, entity_name },
            ),
            (
                Stage::Probing(probe),
                EngineCall::GetJsonMember {
                    connector,
                    entity_name,
                    index,
                    member_name: field_name,
                },
            )
            | (
                Stage::Probing(probe),
                EngineCall::GetStringFromSample { connector, entity_name, index, field_name },
            )
            | (
                Stage::Probing(probe),
                EngineCall::GetNumberFromSample { connector, entity_name, index, field_name },
            )
            | (
                Stage::Probing(probe),
                EngineCall::GetBooleanFromSample { connector, entity_name, index, field_name },
            ) => Ok(
                match probe {
                    Accessor::Json => EngineCall::GetJsonMember {
                        connector,
                        entity_name,
                        index,
                        member_name: field_name,
                    },
                    Accessor::String => EngineCall::GetStringFromSample {
                        connector,
                        entity_name,
                        index,
                        field_name,
                    },
                    Accessor::Number => EngineCall::GetNumberFromSample {
                        connector,
                        entity_name,
                        index,
                        field_name,
                    },
                    Accessor::Boolean => EngineCall::GetBooleanFromSample {
                        connector,
                        entity_name,
                        index,
                        field_name,
                    },
                },
            ),
            (
                Stage::Resolving(endpoint),
                EngineCall::GetJsonMember { connector, entity_name, .. },
            )
            | (
                Stage::Resolving(endpoint),
                EngineCall::GetStringFromSample { connector, entity_name, .. },
            )
            | (
                Stage::Resolving(endpoint),
                EngineCall::GetNumberFromSample { connector, entity_name, .. },
            )
            | (
                Stage::Resolving(endpoint),
                EngineCall::GetBooleanFromSample { connector, entity_name, .. },
            )
            | (
                Stage::Resolving(endpoint),
                EngineCall::GetJsonSample { connector, entity_name, .. },
            )
            | (
                Stage::Resolving(endpoint),
                EngineCall::GetSampleCount { connector, entity_name },
            ) => Ok(
                match endpoint {
                    Endpoint::Reader => EngineCall::GetDatareader { connector, entity_name },
                    Endpoint::Writer => EngineCall::GetDatawriter { connector, entity_name },
                },
            ),
            _ => Err(ConnectorError::FfiError),
        }
    }

    /// The stage that follows on an answer.
    ///
    /// - Counting: a count that failed turns the search to the entity. An
    ///   index at which there is no sample settles it (`SampleNotFound`), and
    ///   so does a sample that was to be read whole (`FfiError`). Else the
    ///   accessors are tried.
    /// - Probing: an accessor that reads the field settles the search: the
    ///   field is of another type than was asked. When none is left to try,
    ///   the field is not there.
    /// - Resolving: a reader or a writer of the name settles the search: the
    ///   failure is the engine's own (`FfiError`). A session that has
    ///   neither has no such entity (`ConfigError`).
    pub open spec fn after(&self, answer: ProbeAnswer) -> Stage {
        match self.stage {
            Stage::Settled(cause) => Stage::Settled(cause),
            Stage::Counting => if !reads_sample(self.refused) {
                Stage::Settled(ConnectorError::FfiError)
            } else if answer.code != RETCODE_OK {
                Stage::Resolving(Endpoint::Reader)
            } else if !(0 <= index_read(self.refused) < answer.count) {
                Stage::Settled(ConnectorError::SampleNotFound)
            } else {
                match accessor_of(self.refused) {
                    Some(asked) => Stage::Probing(first_probe(asked)),
                    None => Stage::Settled(ConnectorError::FfiError),
                }
            },
            Stage::Probing(probe) => match accessor_of(self.refused) {
                None => Stage::Settled(ConnectorError::FfiError),
                Some(asked) => if found(probe, answer) {
                    Stage::Settled(wrong_type(asked))
                } else {
                    match next_probe(asked, probe) {
                        Some(next) => Stage::Probing(next),
                        None => Stage::Settled(not_found(asked)),
                    }
                },
            },
            Stage::Resolving(Endpoint::Reader) => if answer.address != 0 {
                Stage::Settled(ConnectorError::FfiError)
            } else {
                Stage::Resolving(Endpoint::Writer)
            },
            Stage::Resolving(Endpoint::Writer) => if answer.address != 0 {
                Stage::Settled(ConnectorError::FfiError)
            } else {
                Stage::Settled(ConnectorError::ConfigError)
            },
        }
    }

    /// How many questions the search may still ask.
    pub open spec fn remaining(&self) -> nat {
        match self.stage {
            Stage::Settled(_) => 0,
            Stage::Resolving(Endpoint::Writer) => 1,
            Stage::Resolving(Endpoint::Reader) => 2,
            Stage::Probing(Accessor::Boolean) => 1,
            Stage::Probing(Accessor::Number) => 2,
            Stage::Probing(Accessor::String) => 3,
            Stage::Probing(Accessor::Json) => 4,
            Stage::Counting => 5,
        }
    }

    /// The answer that the engine gave to the question of this stage, as
    /// [`Diagnosis::after`] reads it. The bits of the count are read where
    /// the question was for the count, and nowhere else.
    pub open spec fn heard(&self, code: i32, count_bits: u64, has_text: bool, address: usize) -> ProbeAnswer {
        if self.stage is Counting {
            ProbeAnswer::given(code, count_bits, has_text, address)
        } else {
            ProbeAnswer { code, count: 0, has_text, address }
        }
    }

    /// Takes the engine's answer as it came, the count by the bits of its
    /// double, and goes on to the stage that follows.
    pub fn told(self, code: i32, count_bits: u64, has_text: bool, address: usize) -> (next:
        Diagnosis<'a>)
        ensures
            next.refused == self.refused,
            next.stage == self.after(self.heard(code, count_bits, has_text, address)),
            self.stage !is Settled ==> next.remaining() < self.remaining(),
    {
        let answer = match self.stage {
            Stage::Counting => ProbeAnswer::of(code, count_bits, has_text, address),
            _ => ProbeAnswer { code, count: 0, has_text, address },
        };
        self.answered(answer)
    }

    /// Takes the engine's answer to the question asked, and goes on to the
    /// stage that follows ([`Diagnosis::after`]). A search that is over stays
    /// as it is; one that is not has fewer questions left than before.
    pub fn answered(self, answer: ProbeAnswer) -> (next: Diagnosis<'a>)
        ensures
            next.refused == self.refused,
            next.stage == self.after(answer),
            self.stage !is Settled ==> next.remaining() < self.remaining(),
    {
        let stage = match self.stage {
            Stage::Settled(cause) => Stage::Settled(cause),
            Stage::Counting => {
                let index = match self.refused {
                    EngineCall::GetJsonMember { index, .. } => Some(index),
                    EngineCall::GetStringFromSample { index, .. } => Some(index),
                    EngineCall::GetNumberFromSample { index, .. } => Some(index),
                    EngineCall::GetBooleanFromSample { index, .. } => Some(index),
                    EngineCall::GetJsonSample { index, .. } => Some(index),
                    _ => None,
                };
                match index {
                    None => Stage::Settled(ConnectorError::FfiError),
                    Some(index) => if answer.code != RETCODE_OK {
                        Stage::Resolving(Endpoint::Reader)
                    } else if index < 0 || index as usize >= answer.count {
                        Stage::Settled(ConnectorError::SampleNotFound)
                    } else {
                        match accessor(&self.refused) {
                            Some(asked) => Stage::Probing(first(asked)),
                            None => Stage::Settled(ConnectorError::FfiError),
                        }
                    },
                }
            },
            Stage::Probing(probe) => match accessor(&self.refused) {
                None => Stage::Settled(ConnectorError::FfiError),
                Some(asked) => {
                    let reads_text = match probe {
                        Accessor::Json | Accessor::String => true,
                        _ => false,
                    };
                    if answer.code == RETCODE_OK && (!reads_text || answer.has_text) {
                        Stage::Settled(wrong(asked))
                    } else {
                        match next_after(asked, probe) {
                            Some(next) => Stage::Probing(next),
                            None => Stage::Settled(absent(asked)),
                        }
                    }
                },
            },
            Stage::Resolving(Endpoint::Reader) => if answer.address != 0 {
                Stage::Settled(ConnectorError::FfiError)
            } else {
                Stage::Resolving(Endpoint::Writer)
            },
            Stage::Resolving(Endpoint::Writer) => if answer.address != 0 {
                Stage::Settled(ConnectorError::FfiError)
            } else {
                Stage::Settled(ConnectorError::ConfigError)
            },
        };
        Diagnosis { refused: self.refused, stage }
    }
}

/// Whether the evidence has the accessor read the field.
pub open spec fn reads(probe: Accessor, evidence: Evidence) -> bool {
    match probe {
        Accessor::Json => evidence.json,
        Accessor::String => evidence.string,
        Accessor::Number => evidence.number,
        Accessor::Boolean => evidence.boolean,
    }
}

/// The answer that the evidence holds for the question of a stage.
pub open spec fn answer_of(stage: Stage, evidence: Evidence) -> ProbeAnswer {
    match stage {
        Stage::Counting => ProbeAnswer {
            code: evidence.count_code,
            count: evidence.count,
            has_text: false,
            address: 0,
        },
        Stage::Probing(probe) => ProbeAnswer {
            code: if reads(probe, evidence) {
                RETCODE_OK
            } else {
                1i32
            },
            count: 0,
            has_text: reads(probe, evidence),
            address: 0,
        },
        Stage::Resolving(Endpoint::Reader) => ProbeAnswer {
            code: RETCODE_OK,
            count: 0,
            has_text: false,
            address: if evidence.reader {
                1usize
            } else {
                0usize
            },
        },
        Stage::Resolving(Endpoint::Writer) => ProbeAnswer {
            code: RETCODE_OK,
            count: 0,
            has_text: false,
            address: if evidence.writer {
                1usize
            } else {
                0usize
            },
        },
        Stage::Settled(_) => ProbeAnswer { code: RETCODE_OK, count: 0, has_text: false, address: 0 },
    }
}

/// Computes [`answer_of`].
fn answer(stage: Stage, evidence: Evidence) -> (given: ProbeAnswer)
    ensures
        given == answer_of(stage, evidence),
{
    match stage {
        Stage::Counting => ProbeAnswer {
            code: evidence.count_code,
            count: evidence.count,
            has_text: false,
            address: 0,
        },
        Stage::Probing(probe) => {
            let read = match probe {
                Accessor::Json => evidence.json,
                Accessor::String => evidence.string,
                Accessor::Number => evidence.number,
                Accessor::Boolean => evidence.boolean,
            };
            let code: i32 = if read {
                RETCODE_OK
            } else {
                1
            };
            ProbeAnswer { code, count: 0, has_text: read, address: 0 }
        },
        Stage::Resolving(Endpoint::Reader) => {
            let address: usize = if evidence.reader {
                1
            } else {
                0
            };
            ProbeAnswer { code: RETCODE_OK, count: 0, has_text: false, address }
        },
        Stage::Resolving(Endpoint::Writer) => {
            let address: usize = if evidence.writer {
                1
            } else {
                0
            };
            ProbeAnswer { code: RETCODE_OK, count: 0, has_text: false, address }
        },
        Stage::Settled(_) => ProbeAnswer { code: RETCODE_OK, count: 0, has_text: false, address: 0 },
    }
}

/// Whether `probe`, or an accessor that is tried after it, is another than
/// `asked` and reads the field.
pub open spec fn found_from(asked: Accessor, probe: Accessor, evidence: Evidence) -> bool {
    ||| probe != asked && reads(probe, evidence)
    ||| match following(probe) {
        Some(second) => {
            ||| second != asked && reads(second, evidence)
            ||| match following(second) {
                Some(third) => {
                    ||| third != asked && reads(third, evidence)
                    ||| match following(third) {
                        Some(fourth) => fourth != asked && reads(fourth, evidence),
                        None => false,
                    }
                },
                None => false,
            }
        },
        None => false,
    }
}

/// What a search that stands at a stage will settle on, given the evidence.
pub open spec fn pending(diagnosis: Diagnosis<'_>, evidence: Evidence) -> ConnectorError {
    match diagnosis.stage {
        Stage::Settled(cause) => cause,
        Stage::Counting => if reads_sample(diagnosis.refused) {
            cause_of(diagnosis.refused, evidence)
        } else {
            ConnectorError::FfiError
        },
        Stage::Probing(probe) => match accessor_of(diagnosis.refused) {
            None => ConnectorError::FfiError,
            Some(asked) => if found_from(asked, probe, evidence) {
                wrong_type(asked)
            } else {
                not_found(asked)
            },
        },
        Stage::Resolving(Endpoint::Reader) => entity_cause(evidence),
        Stage::Resolving(Endpoint::Writer) => if evidence.writer {
            ConnectorError::FfiError
        } else {
            ConnectorError::ConfigError
        },
    }
}

/// The cause of a refused call, found by a search that is answered from the
/// evidence. Whatever the order of its questions, the search settles on
/// [`cause_of`].
pub fn diagnose(refused: EngineCall<'_>, evidence: Evidence) -> (cause: ConnectorError)
    ensures
        cause == cause_of(refused, evidence),
{
    let mut diagnosis = Diagnosis::begin(refused);
    loop
        invariant
            diagnosis.refused == refused,
            pending(diagnosis, evidence) == cause_of(refused, evidence),
            diagnosis.stage matches Stage::Probing(probe) ==> accessor_of(refused) != Some(probe),
        decreases diagnosis.remaining(),
    {
        match diagnosis.stage {
            Stage::Settled(cause) => {
                return cause;
            },
            stage => {
                let given = answer(stage, evidence);
                diagnosis = diagnosis.answered(given);
            },
        }
    }
}

/// What a read ends in, given the evidence: its value, the cause that it was
/// settled on at once, or the cause that the search for it finds
/// ([`cause_of`]).
pub open spec fn resolved_of<T>(read: Result<T, Diagnosis<'_>>, evidence: Evidence) -> Result<
    T,
    ConnectorError,
> {
    match read {
        Ok(value) => Ok(value),
        Err(search) => match search.stage {
            Stage::Settled(cause) => Err(cause),
            _ => Err(cause_of(search.refused, evidence)),
        },
    }
}

/// Computes [`resolved_of`].
pub fn resolve<T>(read: Result<T, Diagnosis<'_>>, evidence: Evidence) -> (r: Result<
    T,
    ConnectorError,
>)
    ensures
        r == resolved_of(read, evidence),
{
    match read {
        Ok(value) => Ok(value),
        Err(search) => match search.stage {
            Stage::Settled(cause) => Err(cause),
            _ => Err(diagnose(search.refused, evidence)),
        },
    }
}

/// A read of a field that the engine refused says why. Where the samples of
/// the entity can be counted, it ends in one of three errors, no two of them
/// the same: `SampleNotFound` for an index at which there is no sample, the
/// wrong-type error of the accessor for a field that another accessor reads,
/// and its not-found error for a field that none reads.
pub proof fn lemma_refused_read_says_why(refused: EngineCall<'_>, evidence: Evidence)
    requires
        accessor_of(refused) is Some,
        evidence.count_code == RETCODE_OK,
    ensures
        ({
            let asked = accessor_of(refused)->Some_0;
            let cause = cause_of(refused, evidence);
            let in_batch = 0 <= index_read(refused) < evidence.count;
            &&& !in_batch ==> cause == ConnectorError::SampleNotFound
            &&& in_batch && found_by_another(asked, evidence) ==> cause == wrong_type(asked)
            &&& in_batch && !found_by_another(asked, evidence) ==> cause == not_found(asked)
            &&& wrong_type(asked) != not_found(asked)
            &&& wrong_type(asked) != ConnectorError::SampleNotFound
            &&& not_found(asked) != ConnectorError::SampleNotFound
            &&& cause != ConnectorError::FfiError
        }),
{
}

} // verus!
