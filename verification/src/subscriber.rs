//! Readers: the subscription endpoints of a session.

use core::marker::PhantomData;
use vstd::prelude::*;
use crate::connector::Connector;
use crate::engine::{c_index, c_timeout, count, count_of, index_of, timeout_of, EngineCall};
use crate::error::{ConnectorError, RETCODE_OK};
use crate::reply::{status, status_of};
use crate::text::{c_text, is_c_text};
use crate::topic::{decode, decode_yields, TopicError, TopicType};

verus! {

/// The two ways to fetch what a reader has received.
#[derive(Debug, Clone, Copy, PartialEq, Eq, Structural)]
pub enum Fetch {
    /// The samples stay with the engine: the next fetch yields them again.
    Read,
    /// The engine gives the samples up: the next fetch yields only what
    /// arrived since.
    Take,
}

/// A reader that a session resolved by name.
///
/// It borrows the session, and remembers how many samples the last fetch left
/// in its batch: the samples at the positions below that count can be read,
/// and no others.
#[derive(Debug)]
pub struct DynamicDataReader<'a> {
    connector: &'a Connector,
    entity_name: &'a str,
    data_reader: usize,
    samples: usize,
}

impl<'a> DynamicDataReader<'a> {
    /// The session that the reader borrows.
    pub closed spec fn spec_connector(&self) -> &'a Connector {
        self.connector
    }

    #[verifier::when_used_as_spec(spec_connector)]
    pub fn connector(&self) -> (session: &'a Connector)
        ensures
            session == self.spec_connector(),
    {
        self.connector
    }

    /// The name that the reader was resolved by.
    pub closed spec fn spec_entity_name(&self) -> &'a str {
        self.entity_name
    }

    #[verifier::when_used_as_spec(spec_entity_name)]
    pub fn entity_name(&self) -> (name: &'a str)
        ensures
            name == self.spec_entity_name(),
    {
        self.entity_name
    }

    /// The address of the engine's reader.
    pub closed spec fn spec_handle(&self) -> usize {
        self.data_reader
    }

    #[verifier::when_used_as_spec(spec_handle)]
    pub fn handle(&self) -> (address: usize)
        ensures
            address == self.spec_handle(),
    {
        self.data_reader
    }

    /// The size of the batch: how many samples the last fetch left, zero
    /// before the first and after a `clear`.
    pub closed spec fn spec_samples(&self) -> usize {
        self.samples
    }

    #[verifier::when_used_as_spec(spec_samples)]
    pub fn samples(&self) -> (count: usize)
        ensures
            count == self.spec_samples(),
    {
        self.samples
    }

    /// What holds of every reader: its engine's reader exists, its name can
    /// cross to the engine, and the engine can address every sample of its
    /// batch.
    pub open spec fn wf(&self) -> bool {
        &&& self.handle() != 0
        &&& is_c_text(self.entity_name()@)
        &&& self.samples() <= i32::MAX
    }

    /// Whether the batch has a sample at `index`.
    pub open spec fn in_batch(&self, index: usize) -> bool {
        index < self.samples() && index_of(index) is Some
    }

    /// The reader that the engine resolved at `address` for `entity_name`;
    /// its batch is empty. A session without an instance has no readers
    /// (`NullPointer`); a name that cannot cross names none
    /// (`InvalidString`); and where the engine found none of that name and
    /// answered zero, that is a `ConfigError`.
    pub fn bound(connector: &'a Connector, entity_name: &'a str, address: usize) -> (r: Result<
        DynamicDataReader<'a>,
        ConnectorError,
    >)
        ensures
            connector.is_null() ==> r matches Err(ConnectorError::NullPointer),
            !connector.is_null() && !is_c_text(entity_name@) ==> r matches Err(
                ConnectorError::InvalidString,
            ),
            !connector.is_null() && is_c_text(entity_name@) && address == 0 ==> r matches Err(
                ConnectorError::ConfigError,
            ),
            !connector.is_null() && is_c_text(entity_name@) && address != 0 ==> (r matches Ok(
                reader,
            ) && reader.connector() == connector && reader.entity_name() == entity_name
                && reader.handle() == address && reader.samples() == 0 && reader.wf()),
    {
        if connector.is_null() {
            Err(ConnectorError::NullPointer)
        } else if !c_text(entity_name) {
            Err(ConnectorError::InvalidString)
        } else if address == 0 {
            Err(ConnectorError::ConfigError)
        } else {
            Ok(DynamicDataReader { connector, entity_name, data_reader: address, samples: 0 })
        }
    }

    /// Fetches what the reader has received and leaves it with the engine:
    /// the next fetch yields the same samples again. Answer to
    /// [`DynamicDataReader::fetched`].
    pub fn read(&self) -> (r: Result<EngineCall<'a>, ConnectorError>)
        ensures
            r == self.connector().decides(
                true,
                is_c_text(self.entity_name()@),
                (EngineCall::Read {
                    connector: self.connector().handle(),
                    entity_name: self.entity_name(),
                }),
            ),
            r matches Ok(call) ==> call.performable(),
    {
        self.connector.read(self.entity_name)
    }

    /// Fetches what the reader has received and removes it from the engine:
    /// the next fetch yields only what arrived since. Answer to
    /// [`DynamicDataReader::fetched`].
    pub fn take(&self) -> (r: Result<EngineCall<'a>, ConnectorError>)
        ensures
            r == self.connector().decides(
                true,
                is_c_text(self.entity_name()@),
                (EngineCall::Take {
                    connector: self.connector().handle(),
                    entity_name: self.entity_name(),
                }),
            ),
            r matches Ok(call) ==> call.performable(),
    {
        self.connector.take(self.entity_name)
    }

    /// Fetches what the reader has received, in the way that `mode` names.
    /// Answer to [`DynamicDataReader::fetched`].
    pub fn fetch(&self, mode: Fetch) -> (r: Result<EngineCall<'a>, ConnectorError>)
        ensures
            r == self.connector().decides(
                true,
                is_c_text(self.entity_name()@),
                match mode {
                    Fetch::Read => (EngineCall::Read {
                        connector: self.connector().handle(),
                        entity_name: self.entity_name(),
                    }),
                    Fetch::Take => (EngineCall::Take {
                        connector: self.connector().handle(),
                        entity_name: self.entity_name(),
                    }),
                },
            ),
            r matches Ok(call) ==> call.performable(),
    {
        match mode {
            Fetch::Read => self.read(),
            Fetch::Take => self.take(),
        }
    }

    /// Records the engine's answer to a fetch, and yields the call that
    /// counts what was fetched. Whatever the answer, the batch of before is
    /// gone; the new one counts as empty until
    /// [`DynamicDataReader::counted`] has its size. A fetch that failed is an
    /// `FfiError`, and nothing is counted.
    pub fn fetched(&mut self, code: i32) -> (r: Result<EngineCall<'a>, ConnectorError>)
        ensures
            code != RETCODE_OK ==> r == Err::<EngineCall<'a>, _>(ConnectorError::FfiError),
            code == RETCODE_OK ==> r == old(self).connector().decides(
                true,
                is_c_text(old(self).entity_name()@),
                (EngineCall::GetSampleCount {
                    connector: old(self).connector().handle(),
                    entity_name: old(self).entity_name(),
                }),
            ),
            final(self).samples() == 0,
            final(self).connector() == old(self).connector(),
            final(self).entity_name() == old(self).entity_name(),
            final(self).handle() == old(self).handle(),
            old(self).wf() ==> final(self).wf(),
            r matches Ok(call) ==> call.performable(),
    {
        self.samples = 0;
        if code != RETCODE_OK {
            Err(ConnectorError::FfiError)
        } else {
            self.connector.get_sample_count(self.entity_name)
        }
    }

    /// Counts the samples of the batch. Answer to
    /// [`DynamicDataReader::counted`].
    pub fn get_sample_count(&self) -> (r: Result<EngineCall<'a>, ConnectorError>)
        ensures
            r == self.connector().decides(
                true,
                is_c_text(self.entity_name()@),
                (EngineCall::GetSampleCount {
                    connector: self.connector().handle(),
                    entity_name: self.entity_name(),
                }),
            ),
            r matches Ok(call) ==> call.performable(),
    {
        self.connector.get_sample_count(self.entity_name)
    }

    /// The size of the batch that the engine counted, where it counted: the
    /// count that the bits of its double stand for, or the number of samples
    /// that the engine can address where the count is beyond it.
    pub open spec fn batch_of(code: i32, count_bits: u64) -> Option<usize> {
        if code != RETCODE_OK {
            None
        } else {
            match count_of(count_bits) {
                Some(count) => if index_of(count) is Some {
                    Some(count)
                } else {
                    Some(i32::MAX as usize)
                },
                None => None,
            }
        }
    }

    /// Records the size of the batch that the engine counted, and returns
    /// it. Where the engine failed to count, or answered what is no count,
    /// that is an `FfiError`, and the batch counts as empty.
    pub fn counted(&mut self, code: i32, count_bits: u64) -> (r: Result<usize, ConnectorError>)
        ensures
            Self::batch_of(code, count_bits) matches Some(batch) ==> r == Ok::<_, ConnectorError>(
                batch,
            ) && final(self).samples() == batch,
            Self::batch_of(code, count_bits) is None ==> r == Err::<usize, _>(
                ConnectorError::FfiError,
            ) && final(self).samples() == 0,
            final(self).connector() == old(self).connector(),
            final(self).entity_name() == old(self).entity_name(),
            final(self).handle() == old(self).handle(),
            old(self).wf() ==> final(self).wf(),
    {
        let counted = if code != RETCODE_OK {
            None
        } else {
            count(count_bits)
        };
        match counted {
            None => {
                self.samples = 0;
                Err(ConnectorError::FfiError)
            },
            Some(count) => {
                let batch: usize = match c_index(count) {
                    Some(_) => count,
                    None => i32::MAX as usize,
                };
                self.samples = batch;
                Ok(batch)
            },
        }
    }

    /// Drops the batch. Answer to [`DynamicDataReader::cleared`].
    pub fn clear(&self) -> (r: Result<EngineCall<'a>, ConnectorError>)
        ensures
            r == self.connector().decides(
                true,
                is_c_text(self.entity_name()@),
                (EngineCall::Clear {
                    connector: self.connector().handle(),
                    entity_name: self.entity_name(),
                }),
            ),
            r matches Ok(call) ==> call.performable(),
    {
        self.connector.clear(self.entity_name)
    }

    /// Records the engine's answer to a `clear`: where the engine dropped the
    /// batch it is empty, and where it failed the batch is as it was.
    pub fn cleared(&mut self, code: i32) -> (r: Result<(), ConnectorError>)
        ensures
            r == status_of(code),
            final(self).samples() == if code == RETCODE_OK {
                0
            } else {
                old(self).samples()
            },
            final(self).connector() == old(self).connector(),
            final(self).entity_name() == old(self).entity_name(),
            final(self).handle() == old(self).handle(),
            old(self).wf() ==> final(self).wf(),
    {
        if code == RETCODE_OK {
            self.samples = 0;
        }
        status(code)
    }
}

/// Reading the batch, sample by sample. A position outside the batch is
/// refused with `SampleNotFound` before the engine is asked.
impl<'a> DynamicDataReader<'a> {
    /// Reads a boolean field of the sample at `index`. Answer to
    /// [`crate::reply::boolean_from_sample`].
    pub fn get_boolean_from_sample<'b>(&'b self, index: usize, field_name: &'b str) -> (r: Result<
        EngineCall<'b>,
        ConnectorError,
    >)
        ensures
            r == self.connector().decides(
                self.in_batch(index),
                is_c_text(self.entity_name()@) && is_c_text(field_name@),
                (EngineCall::GetBooleanFromSample {
                    connector: self.connector().handle(),
                    entity_name: self.entity_name(),
                    index: index as i32,
                    field_name,
                }),
            ),
            r matches Ok(call) ==> call.performable(),
    {
        let (in_range, position) = Connector::position(index);
        self.connector.decide(
            index < self.samples && in_range,
            c_text(self.entity_name) && c_text(field_name),
            EngineCall::GetBooleanFromSample {
                connector: self.connector.handle(),
                entity_name: self.entity_name,
                index: position,
                field_name,
            },
        )
    }

    /// Reads a number field of the sample at `index`. Answer to
    /// [`crate::reply::number_from_sample`].
    pub fn get_number_from_sample<'b>(&'b self, index: usize, field_name: &'b str) -> (r: Result<
        EngineCall<'b>,
        ConnectorError,
    >)
        ensures
            r == self.connector().decides(
                self.in_batch(index),
                is_c_text(self.entity_name()@) && is_c_text(field_name@),
                (EngineCall::GetNumberFromSample {
                    connector: self.connector().handle(),
                    entity_name: self.entity_name(),
                    index: index as i32,
                    field_name,
                }),
            ),
            r matches Ok(call) ==> call.performable(),
    {
        let (in_range, position) = Connector::position(index);
        self.connector.decide(
            index < self.samples && in_range,
            c_text(self.entity_name) && c_text(field_name),
            EngineCall::GetNumberFromSample {
                connector: self.connector.handle(),
                entity_name: self.entity_name,
                index: position,
                field_name,
            },
        )
    }

    /// Reads a string field of the sample at `index`. Answer to
    /// [`crate::reply::string_from_sample`].
    pub fn get_string_from_sample<'b>(&'b self, index: usize, field_name: &'b str) -> (r: Result<
        EngineCall<'b>,
        ConnectorError,
    >)
        ensures
            r == self.connector().decides(
                self.in_batch(index),
                is_c_text(self.entity_name()@) && is_c_text(field_name@),
                (EngineCall::GetStringFromSample {
                    connector: self.connector().handle(),
                    entity_name: self.entity_name(),
                    index: index as i32,
                    field_name,
                }),
            ),
            r matches Ok(call) ==> call.performable(),
    {
        let (in_range, position) = Connector::position(index);
        self.connector.decide(
            index < self.samples && in_range,
            c_text(self.entity_name) && c_text(field_name),
            EngineCall::GetStringFromSample {
                connector: self.connector.handle(),
                entity_name: self.entity_name,
                index: position,
                field_name,
            },
        )
    }

    /// Reads one member of the sample at `index` as JSON. Answer to
    /// [`crate::reply::json_member`].
    pub fn get_json_member<'b>(&'b self, index: usize, member_name: &'b str) -> (r: Result<
        EngineCall<'b>,
        ConnectorError,
    >)
        ensures
            r == self.connector().decides(
                self.in_batch(index),
                is_c_text(self.entity_name()@) && is_c_text(member_name@),
                (EngineCall::GetJsonMember {
                    connector: self.connector().handle(),
                    entity_name: self.entity_name(),
                    index: index as i32,
                    member_name,
                }),
            ),
            r matches Ok(call) ==> call.performable(),
    {
        let (in_range, position) = Connector::position(index);
        self.connector.decide(
            index < self.samples && in_range,
            c_text(self.entity_name) && c_text(member_name),
            EngineCall::GetJsonMember {
                connector: self.connector.handle(),
                entity_name: self.entity_name,
                index: position,
                member_name,
            },
        )
    }

    /// Reads the whole sample at `index` as JSON. Answer to
    /// [`crate::reply::json_sample`].
    pub fn get_json_sample(&self, index: usize) -> (r: Result<EngineCall<'a>, ConnectorError>)
        ensures
            r == self.connector().decides(
                self.in_batch(index),
                is_c_text(self.entity_name()@),
                (EngineCall::GetJsonSample {
                    connector: self.connector().handle(),
                    entity_name: self.entity_name(),
                    index: index as i32,
                }),
            ),
            r matches Ok(call) ==> call.performable(),
    {
        let (in_range, position) = Connector::position(index);
        self.connector.decide(
            index < self.samples && in_range,
            c_text(self.entity_name),
            EngineCall::GetJsonSample {
                connector: self.connector.handle(),
                entity_name: self.entity_name,
                index: position,
            },
        )
    }

    /// A reader of a live session reads its batch and nothing else: the
    /// sample at every position below the size of the batch, given a field
    /// name that can cross, and at no position from the size on, whatever the
    /// field.
    pub proof fn lemma_batch_bounds_reads(&self, index: usize, c_texts: bool, call: EngineCall<'_>)
        requires
            self.wf(),
            !self.connector().is_null(),
        ensures
            index < self.samples() && c_texts ==> self.connector().decides(
                self.in_batch(index),
                c_texts,
                call,
            ) == Ok::<_, ConnectorError>(call),
            index >= self.samples() ==> self.connector().decides(
                self.in_batch(index),
                c_texts,
                call,
            ) == Err::<EngineCall<'_>, _>(ConnectorError::SampleNotFound),
    {
    }
}

/// Waiting and discovery.
impl<'a> DynamicDataReader<'a> {
    /// Resets one member of the samples that the reader holds to its
    /// default. Answer to [`crate::reply::status`].
    pub fn clear_member<'b>(&'b self, member_name: &'b str) -> (r: Result<
        EngineCall<'b>,
        ConnectorError,
    >)
        ensures
            r == self.connector().decides(
                true,
                is_c_text(self.entity_name()@) && is_c_text(member_name@),
                (EngineCall::ClearMember {
                    connector: self.connector().handle(),
                    entity_name: self.entity_name(),
                    member_name,
                }),
            ),
            r matches Ok(call) ==> call.performable(),
    {
        self.connector.clear_member(self.entity_name, member_name)
    }

    /// Waits up to `timeout` milliseconds for data on this reader. Answer to
    /// [`crate::reply::reader_data`], or to [`crate::reply::data_arrived`],
    /// which says whether data came.
    pub fn wait_for_data_on_reader(&self, timeout: u128) -> (r: Result<
        EngineCall<'static>,
        ConnectorError,
    >)
        ensures
            r == self.connector().decides_at(
                self.handle(),
                (EngineCall::WaitForDataOnReader {
                    handle: self.handle(),
                    timeout: timeout_of(timeout),
                }),
            ),
            r matches Ok(call) ==> call.performable(),
    {
        self.connector.decide_at(
            self.data_reader,
            EngineCall::WaitForDataOnReader {
                handle: self.data_reader,
                timeout: c_timeout(timeout),
            },
        )
    }

    /// Waits up to `ms_timeout` milliseconds, as the engine reads them, for
    /// the publications that match this reader to change. Answer to
    /// [`crate::reply::match_change`].
    pub fn wait_for_matched_publication(&self, ms_timeout: i32) -> (r: Result<
        EngineCall<'static>,
        ConnectorError,
    >)
        ensures
            r == self.connector().decides_at(
                self.handle(),
                (EngineCall::WaitForMatchedPublication {
                    reader: self.handle(),
                    timeout: ms_timeout,
                }),
            ),
            r matches Ok(call) ==> call.performable(),
    {
        self.connector.decide_at(
            self.data_reader,
            EngineCall::WaitForMatchedPublication { reader: self.data_reader, timeout: ms_timeout },
        )
    }

    /// Lists the publications that match this reader now. Answer to
    /// [`crate::reply::matched_entities`].
    pub fn get_matched_publications(&self) -> (r: Result<EngineCall<'static>, ConnectorError>)
        ensures
            r == self.connector().decides_at(
                self.handle(),
                (EngineCall::GetMatchedPublications { reader: self.handle() }),
            ),
            r matches Ok(call) ==> call.performable(),
    {
        self.connector.decide_at(
            self.data_reader,
            EngineCall::GetMatchedPublications { reader: self.data_reader },
        )
    }
}

/// A reader whose samples are the values of one topic type.
#[derive(Debug)]
pub struct DataReader<'a, T: TopicType> {
    reader: DynamicDataReader<'a>,
    _marker: PhantomData<T>,
}

impl<'a, T: TopicType> DataReader<'a, T> {
    /// The reader that fetches the samples.
    pub closed spec fn spec_reader(&self) -> &DynamicDataReader<'a> {
        &self.reader
    }

    #[verifier::when_used_as_spec(spec_reader)]
    pub fn reader(&self) -> (reader: &DynamicDataReader<'a>)
        ensures
            reader == self.spec_reader(),
    {
        &self.reader
    }

    /// The reader that fetches the samples, to fetch with.
    pub fn reader_mut(&mut self) -> (reader: &mut DynamicDataReader<'a>)
        ensures
            *reader == *old(self).reader(),
            *final(self).reader() == *final(reader),
    {
        &mut self.reader
    }

    /// Binds a reader to the topic type `T`.
    pub fn new(reader: DynamicDataReader<'a>) -> (typed: DataReader<'a, T>)
        ensures
            typed.reader() == reader,
    {
        DataReader { reader, _marker: PhantomData }
    }

    /// Reads the sample at `index` of the batch, to decode it. Answer to
    /// [`crate::reply::json_sample`], and its result to
    /// [`DataReader::sample`].
    pub fn decode_sample(&self, index: usize) -> (r: Result<EngineCall<'a>, ConnectorError>)
        ensures
            r == self.reader().connector().decides(
                self.reader().in_batch(index),
                is_c_text(self.reader().entity_name()@),
                (EngineCall::GetJsonSample {
                    connector: self.reader().connector().handle(),
                    entity_name: self.reader().entity_name(),
                    index: index as i32,
                }),
            ),
            r matches Ok(call) ==> call.performable(),
    {
        self.reader.get_json_sample(index)
    }

    /// The sample that was read as `json`, decoded as a value of `T`. A read
    /// that failed stays the error that it was; a text that is no value of
    /// `T` is a `Decode` error that holds what the codec said.
    pub fn sample(json: Result<String, ConnectorError>) -> (r: Result<T, TopicError>)
        ensures
            json matches Err(error) ==> r == Err::<T, _>(TopicError::Connector(error)),
            json matches Ok(text) ==> decode_yields(text@, r),
    {
        match json {
            Err(error) => Err(TopicError::Connector(error)),
            Ok(text) => decode(text.as_str()),
        }
    }
}

} // verus!
