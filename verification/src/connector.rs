//! The session: the one owner of the engine's instance.

use vstd::prelude::*;
use crate::engine::{c_index, c_timeout, index_of, timeout_of, EngineCall};
use crate::error::ConnectorError;
use crate::options::{flag, flag_of, RTIOptions, MAX_OPTIONS};
use crate::text::{c_text, is_c_text};

verus! {

/// A session with the engine.
///
/// It holds the address of the engine's instance while the session is open,
/// and zero from the moment it is destroyed. Readers and writers borrow the
/// session, so none of them outlives it.
#[derive(Debug)]
pub struct Connector {
    connector: usize,
}

impl Connector {
    /// The address of the engine's instance, zero where there is none.
    pub closed spec fn spec_handle(&self) -> usize {
        self.connector
    }

    #[verifier::when_used_as_spec(spec_handle)]
    pub fn handle(&self) -> (address: usize)
        ensures
            address == self.spec_handle(),
    {
        self.connector
    }

    /// Whether the session has no instance of the engine.
    pub open spec fn spec_is_null(&self) -> bool {
        self.handle() == 0
    }

    #[verifier::when_used_as_spec(spec_is_null)]
    pub fn is_null(&self) -> (null: bool)
        ensures
            null == self.spec_is_null(),
    {
        self.connector == 0
    }

    /// What an operation on this session yields. A session without an
    /// instance refuses every operation with `NullPointer`. An open one
    /// refuses an index at which there is no sample (`in_range` is false)
    /// with `SampleNotFound`, then a text that cannot cross to the engine
    /// (`c_texts` is false) with `InvalidString`, and else yields the call.
    pub open spec fn decides<'a>(
        &self,
        in_range: bool,
        c_texts: bool,
        call: EngineCall<'a>,
    ) -> Result<EngineCall<'a>, ConnectorError> {
        if self.is_null() {
            Err(ConnectorError::NullPointer)
        } else if !in_range {
            Err(ConnectorError::SampleNotFound)
        } else if !c_texts {
            Err(ConnectorError::InvalidString)
        } else {
            Ok(call)
        }
    }

    /// What an operation on a reader or a writer of this session yields:
    /// `NullPointer` where the session has no instance or the engine has no
    /// such endpoint, and else the call.
    pub open spec fn decides_at<'a>(&self, endpoint: usize, call: EngineCall<'a>) -> Result<
        EngineCall<'a>,
        ConnectorError,
    > {
        if self.is_null() || endpoint == 0 {
            Err(ConnectorError::NullPointer)
        } else {
            Ok(call)
        }
    }

    /// Computes [`Connector::decides_at`].
    pub(crate) fn decide_at<'a>(&self, endpoint: usize, call: EngineCall<'a>) -> (r: Result<
        EngineCall<'a>,
        ConnectorError,
    >)
        ensures
            r == self.decides_at(endpoint, call),
    {
        if self.connector == 0 || endpoint == 0 {
            Err(ConnectorError::NullPointer)
        } else {
            Ok(call)
        }
    }

    /// Computes [`Connector::decides`].
    pub(crate) fn decide<'a>(&self, in_range: bool, c_texts: bool, call: EngineCall<'a>) -> (r: Result<
        EngineCall<'a>,
        ConnectorError,
    >)
        ensures
            r == self.decides(in_range, c_texts, call),
    {
        if self.connector == 0 {
            Err(ConnectorError::NullPointer)
        } else if !in_range {
            Err(ConnectorError::SampleNotFound)
        } else if !c_texts {
            Err(ConnectorError::InvalidString)
        } else {
            Ok(call)
        }
    }

    /// A session that is destroyed refuses whatever it is asked, of itself
    /// or of one of its readers and writers, with `NullPointer`: it yields
    /// no call, so the engine is never handed what is gone.
    pub proof fn lemma_destroyed_session_refuses(
        &self,
        in_range: bool,
        c_texts: bool,
        endpoint: usize,
        call: EngineCall<'_>,
    )
        requires
            self.is_null(),
        ensures
            self.decides(in_range, c_texts, call) == Err::<EngineCall<'_>, _>(
                ConnectorError::NullPointer,
            ),
            self.decides_at(endpoint, call) == Err::<EngineCall<'_>, _>(
                ConnectorError::NullPointer,
            ),
    {
    }

    /// Asks the engine to open a session on the configuration `config_name`
    /// of the source `config_file`. More than [`MAX_OPTIONS`] option records
    /// are a `ConfigError`, a name or source that cannot cross is an
    /// `InvalidString`. The engine's answer goes to [`Connector::opened`].
    pub fn new<'a>(config_name: &'a str, config_file: &'a str, options: &'a [RTIOptions]) -> (r:
        Result<EngineCall<'a>, ConnectorError>)
        ensures
            options@.len() > MAX_OPTIONS ==> r == Err::<EngineCall<'a>, _>(
                ConnectorError::ConfigError,
            ),
            options@.len() <= MAX_OPTIONS && !(is_c_text(config_name@) && is_c_text(config_file@))
                ==> r == Err::<EngineCall<'a>, _>(ConnectorError::InvalidString),
            options@.len() <= MAX_OPTIONS && is_c_text(config_name@) && is_c_text(config_file@)
                ==> r == Ok::<_, ConnectorError>(
                (EngineCall::New { config_name, config_file, options }),
            ),
            r matches Ok(call) ==> call.performable(),
    {
        if options.len() > MAX_OPTIONS {
            Err(ConnectorError::ConfigError)
        } else if !(c_text(config_name) && c_text(config_file)) {
            Err(ConnectorError::InvalidString)
        } else {
            Ok(EngineCall::New { config_name, config_file, options })
        }
    }

    /// The session that the engine opened at `address`. Where the engine
    /// opened none and answered zero, that is a `ConfigError`.
    pub fn opened(address: usize) -> (r: Result<Connector, ConnectorError>)
        ensures
            address == 0 ==> r == Err::<Connector, _>(ConnectorError::ConfigError),
            address != 0 ==> r is Ok && r->Ok_0.handle() == address,
    {
        if address == 0 {
            Err(ConnectorError::ConfigError)
        } else {
            Ok(Connector { connector: address })
        }
    }

    /// Destroys the session: yields the call that destroys the engine's
    /// instance, once. Destroying a session again yields nothing.
    pub fn delete(&mut self) -> (call: Option<EngineCall<'static>>)
        ensures
            final(self).is_null(),
            old(self).is_null() ==> call == None::<EngineCall<'static>>,
            !old(self).is_null() ==> call == Some(
                (EngineCall::Delete { connector: old(self).handle() }),
            ),
            call matches Some(destroy) ==> destroy.performable(),
    {
        if self.connector == 0 {
            None
        } else {
            let connector = self.connector;
            self.connector = 0;
            Some(EngineCall::Delete { connector })
        }
    }
}

/// The operations on the entities of a session, each by the entity's name.
/// Each yields the call for the engine, as [`Connector::decides`] says; the
/// answer goes to the function of [`crate::reply`] that the operation names.
impl Connector {
    /// Counts the samples that the engine holds for an entity. Answer to
    /// [`crate::reply::sample_count`].
    pub fn get_sample_count<'a>(&self, entity_name: &'a str) -> (r: Result<
        EngineCall<'a>,
        ConnectorError,
    >)
        ensures
            r == self.decides(
                true,
                is_c_text(entity_name@),
                (EngineCall::GetSampleCount { connector: self.handle(), entity_name }),
            ),
            r matches Ok(call) ==> call.performable(),
    {
        self.decide(
            true,
            c_text(entity_name),
            EngineCall::GetSampleCount { connector: self.connector, entity_name },
        )
    }

    /// Reads a boolean of the meta-data of the sample at `index`. Answer to
    /// [`crate::reply::boolean_from_infos`].
    pub fn get_boolean_from_infos<'a>(
        &self,
        entity_name: &'a str,
        index: usize,
        field_name: &'a str,
    ) -> (r: Result<EngineCall<'a>, ConnectorError>)
        ensures
            r == self.decides(
                index_of(index) is Some,
                is_c_text(entity_name@) && is_c_text(field_name@),
                (EngineCall::GetBooleanFromInfos {
                    connector: self.handle(),
                    entity_name,
                    index: index as i32,
                    field_name,
                }),
            ),
            r matches Ok(call) ==> call.performable(),
    {
        let (in_range, index) = Self::position(index);
        self.decide(
            in_range,
            c_text(entity_name) && c_text(field_name),
            EngineCall::GetBooleanFromInfos {
                connector: self.connector,
                entity_name,
                index,
                field_name,
            },
        )
    }

    /// Replaces the instance that the writer stages by the one that `json`
    /// describes. Answer to [`crate::reply::status`].
    pub fn set_json_instance<'a>(&self, entity_name: &'a str, json: &'a str) -> (r: Result<
        EngineCall<'a>,
        ConnectorError,
    >)
        ensures
            r == self.decides(
                true,
                is_c_text(entity_name@) && is_c_text(json@),
                (EngineCall::SetJsonInstance { connector: self.handle(), entity_name, json }),
            ),
            r matches Ok(call) ==> call.performable(),
    {
        self.decide(
            true,
            c_text(entity_name) && c_text(json),
            EngineCall::SetJsonInstance { connector: self.connector, entity_name, json },
        )
    }

    /// Stages a boolean field of the writer's instance. Answer to
    /// [`crate::reply::status`].
    pub fn set_boolean_into_samples<'a>(
        &self,
        entity_name: &'a str,
        field_name: &'a str,
        value: bool,
    ) -> (r: Result<EngineCall<'a>, ConnectorError>)
        ensures
            r == self.decides(
                true,
                is_c_text(entity_name@) && is_c_text(field_name@),
                (EngineCall::SetBooleanIntoSamples {
                    connector: self.handle(),
                    entity_name,
                    field_name,
                    value: flag_of(value),
                }),
            ),
            r matches Ok(call) ==> call.performable(),
    {
        self.decide(
            true,
            c_text(entity_name) && c_text(field_name),
            EngineCall::SetBooleanIntoSamples {
                connector: self.connector,
                entity_name,
                field_name,
                value: flag(value),
            },
        )
    }

    /// Stages a number field of the writer's instance; `value` holds the bits
    /// of the double. Answer to [`crate::reply::status`].
    pub fn set_number_into_samples<'a>(
        &self,
        entity_name: &'a str,
        field_name: &'a str,
        value: u64,
    ) -> (r: Result<EngineCall<'a>, ConnectorError>)
        ensures
            r == self.decides(
                true,
                is_c_text(entity_name@) && is_c_text(field_name@),
                (EngineCall::SetNumberIntoSamples {
                    connector: self.handle(),
                    entity_name,
                    field_name,
                    value,
                }),
            ),
            r matches Ok(call) ==> call.performable(),
    {
        self.decide(
            true,
            c_text(entity_name) && c_text(field_name),
            EngineCall::SetNumberIntoSamples {
                connector: self.connector,
                entity_name,
                field_name,
                value,
            },
        )
    }

    /// Stages a string field of the writer's instance. Answer to
    /// [`crate::reply::status`].
    pub fn set_string_into_samples<'a>(
        &self,
        entity_name: &'a str,
        field_name: &'a str,
        value: &'a str,
    ) -> (r: Result<EngineCall<'a>, ConnectorError>)
        ensures
            r == self.decides(
                true,
                is_c_text(entity_name@) && is_c_text(field_name@) && is_c_text(value@),
                (EngineCall::SetStringIntoSamples {
                    connector: self.handle(),
                    entity_name,
                    field_name,
                    value,
                }),
            ),
            r matches Ok(call) ==> call.performable(),
    {
        self.decide(
            true,
            c_text(entity_name) && c_text(field_name) && c_text(value),
            EngineCall::SetStringIntoSamples {
                connector: self.connector,
                entity_name,
                field_name,
                value,
            },
        )
    }

    /// Reads meta-data of the sample at `index` as JSON. Answer to
    /// [`crate::reply::json_from_infos`].
    pub fn get_json_from_infos<'a>(
        &self,
        entity_name: &'a str,
        index: usize,
        field_name: &'a str,
    ) -> (r: Result<EngineCall<'a>, ConnectorError>)
        ensures
            r == self.decides(
                index_of(index) is Some,
                is_c_text(entity_name@) && is_c_text(field_name@),
                (EngineCall::GetJsonFromInfos {
                    connector: self.handle(),
                    entity_name,
                    index: index as i32,
                    field_name,
                }),
            ),
            r matches Ok(call) ==> call.performable(),
    {
        let (in_range, index) = Self::position(index);
        self.decide(
            in_range,
            c_text(entity_name) && c_text(field_name),
            EngineCall::GetJsonFromInfos { connector: self.connector, entity_name, index, field_name },
        )
    }

    /// Reads the whole sample at `index` as JSON. Answer to
    /// [`crate::reply::json_sample`].
    pub fn get_json_sample<'a>(&self, entity_name: &'a str, index: usize) -> (r: Result<
        EngineCall<'a>,
        ConnectorError,
    >)
        ensures
            r == self.decides(
                index_of(index) is Some,
                is_c_text(entity_name@),
                (EngineCall::GetJsonSample {
                    connector: self.handle(),
                    entity_name,
                    index: index as i32,
                }),
            ),
            r matches Ok(call) ==> call.performable(),
    {
        let (in_range, index) = Self::position(index);
        self.decide(
            in_range,
            c_text(entity_name),
            EngineCall::GetJsonSample { connector: self.connector, entity_name, index },
        )
    }

    /// Reads one member of the sample at `index` as JSON. Answer to
    /// [`crate::reply::json_member`].
    pub fn get_json_member<'a>(
        &self,
        entity_name: &'a str,
        index: usize,
        member_name: &'a str,
    ) -> (r: Result<EngineCall<'a>, ConnectorError>)
        ensures
            r == self.decides(
                index_of(index) is Some,
                is_c_text(entity_name@) && is_c_text(member_name@),
                (EngineCall::GetJsonMember {
                    connector: self.handle(),
                    entity_name,
                    index: index as i32,
                    member_name,
                }),
            ),
            r matches Ok(call) ==> call.performable(),
    {
        let (in_range, index) = Self::position(index);
        self.decide(
            in_range,
            c_text(entity_name) && c_text(member_name),
            EngineCall::GetJsonMember { connector: self.connector, entity_name, index, member_name },
        )
    }

    /// Drops the batch of a reader, or the staged instance of a writer.
    /// Answer to [`crate::reply::status`].
    pub fn clear<'a>(&self, entity_name: &'a str) -> (r: Result<EngineCall<'a>, ConnectorError>)
        ensures
            r == self.decides(
                true,
                is_c_text(entity_name@),
                (EngineCall::Clear { connector: self.handle(), entity_name }),
            ),
            r matches Ok(call) ==> call.performable(),
    {
        self.decide(
            true,
            c_text(entity_name),
            EngineCall::Clear { connector: self.connector, entity_name },
        )
    }

    /// Fetches what the reader has received; the samples stay with the engine
    /// for a later fetch. Answer to [`crate::reply::status`].
    pub fn read<'a>(&self, entity_name: &'a str) -> (r: Result<EngineCall<'a>, ConnectorError>)
        ensures
            r == self.decides(
                true,
                is_c_text(entity_name@),
                (EngineCall::Read { connector: self.handle(), entity_name }),
            ),
            r matches Ok(call) ==> call.performable(),
    {
        self.decide(
            true,
            c_text(entity_name),
            EngineCall::Read { connector: self.connector, entity_name },
        )
    }

    /// Fetches what the reader has received; the engine gives the samples up.
    /// Answer to [`crate::reply::status`].
    pub fn take<'a>(&self, entity_name: &'a str) -> (r: Result<EngineCall<'a>, ConnectorError>)
        ensures
            r == self.decides(
                true,
                is_c_text(entity_name@),
                (EngineCall::Take { connector: self.handle(), entity_name }),
            ),
            r matches Ok(call) ==> call.performable(),
    {
        self.decide(
            true,
            c_text(entity_name),
            EngineCall::Take { connector: self.connector, entity_name },
        )
    }

    /// Sends the staged instance of the writer as one sample, with the
    /// parameters that `params_json` describes. Answer to
    /// [`crate::reply::status`].
    pub fn write<'a>(&self, entity_name: &'a str, params_json: &'a str) -> (r: Result<
        EngineCall<'a>,
        ConnectorError,
    >)
        ensures
            r == self.decides(
                true,
                is_c_text(entity_name@) && is_c_text(params_json@),
                (EngineCall::Write { connector: self.handle(), entity_name, params_json }),
            ),
            r matches Ok(call) ==> call.performable(),
    {
        self.decide(
            true,
            c_text(entity_name) && c_text(params_json),
            EngineCall::Write { connector: self.connector, entity_name, params_json },
        )
    }

    /// Reads a number field of the sample at `index`. Answer to
    /// [`crate::reply::number_from_sample`].
    pub fn get_number_from_sample<'a>(
        &self,
        entity_name: &'a str,
        index: i32,
        field_name: &'a str,
    ) -> (r: Result<EngineCall<'a>, ConnectorError>)
        ensures
            r == self.decides(
                index >= 0,
                is_c_text(entity_name@) && is_c_text(field_name@),
                (EngineCall::GetNumberFromSample {
                    connector: self.handle(),
                    entity_name,
                    index,
                    field_name,
                }),
            ),
            r matches Ok(call) ==> call.performable(),
    {
        self.decide(
            index >= 0,
            c_text(entity_name) && c_text(field_name),
            EngineCall::GetNumberFromSample {
                connector: self.connector,
                entity_name,
                index,
                field_name,
            },
        )
    }

    /// Reads a boolean field of the sample at `index`. Answer to
    /// [`crate::reply::boolean_from_sample`].
    pub fn get_boolean_from_sample<'a>(
        &self,
        entity_name: &'a str,
        index: i32,
        field_name: &'a str,
    ) -> (r: Result<EngineCall<'a>, ConnectorError>)
        ensures
            r == self.decides(
                index >= 0,
                is_c_text(entity_name@) && is_c_text(field_name@),
                (EngineCall::GetBooleanFromSample {
                    connector: self.handle(),
                    entity_name,
                    index,
                    field_name,
                }),
            ),
            r matches Ok(call) ==> call.performable(),
    {
        self.decide(
            index >= 0,
            c_text(entity_name) && c_text(field_name),
            EngineCall::GetBooleanFromSample {
                connector: self.connector,
                entity_name,
                index,
                field_name,
            },
        )
    }

    /// Reads a string field of the sample at `index`. Answer to
    /// [`crate::reply::string_from_sample`].
    pub fn get_string_from_sample<'a>(
        &self,
        entity_name: &'a str,
        index: i32,
        field_name: &'a str,
    ) -> (r: Result<EngineCall<'a>, ConnectorError>)
        ensures
            r == self.decides(
                index >= 0,
                is_c_text(entity_name@) && is_c_text(field_name@),
                (EngineCall::GetStringFromSample {
                    connector: self.handle(),
                    entity_name,
                    index,
                    field_name,
                }),
            ),
            r matches Ok(call) ==> call.performable(),
    {
        self.decide(
            index >= 0,
            c_text(entity_name) && c_text(field_name),
            EngineCall::GetStringFromSample {
                connector: self.connector,
                entity_name,
                index,
                field_name,
            },
        )
    }

    /// Resets one member of the writer's staged instance to its default.
    /// Answer to [`crate::reply::status`].
    pub fn clear_member<'a>(&self, entity_name: &'a str, member_name: &'a str) -> (r: Result<
        EngineCall<'a>,
        ConnectorError,
    >)
        ensures
            r == self.decides(
                true,
                is_c_text(entity_name@) && is_c_text(member_name@),
                (EngineCall::ClearMember { connector: self.handle(), entity_name, member_name }),
            ),
            r matches Ok(call) ==> call.performable(),
    {
        self.decide(
            true,
            c_text(entity_name) && c_text(member_name),
            EngineCall::ClearMember { connector: self.connector, entity_name, member_name },
        )
    }

    /// Resolves the reader that the configuration declares under
    /// `entity_name`. The engine's answer goes to
    /// [`crate::DynamicDataReader::bound`].
    pub fn get_dynamic_datareader<'a>(&self, entity_name: &'a str) -> (r: Result<
        EngineCall<'a>,
        ConnectorError,
    >)
        ensures
            r == self.decides(
                true,
                is_c_text(entity_name@),
                (EngineCall::GetDatareader { connector: self.handle(), entity_name }),
            ),
            r matches Ok(call) ==> call.performable(),
    {
        self.decide(
            true,
            c_text(entity_name),
            EngineCall::GetDatareader { connector: self.connector, entity_name },
        )
    }

    /// Resolves the writer that the configuration declares under
    /// `entity_name`. The engine's answer goes to
    /// [`crate::DynamicDataWriter::bound`].
    pub fn get_dynamic_datawriter<'a>(&self, entity_name: &'a str) -> (r: Result<
        EngineCall<'a>,
        ConnectorError,
    >)
        ensures
            r == self.decides(
                true,
                is_c_text(entity_name@),
                (EngineCall::GetDatawriter { connector: self.handle(), entity_name }),
            ),
            r matches Ok(call) ==> call.performable(),
    {
        self.decide(
            true,
            c_text(entity_name),
            EngineCall::GetDatawriter { connector: self.connector, entity_name },
        )
    }

    /// Finds the sample at `index` in the engine's memory. Answer to
    /// [`crate::reply::native_sample`].
    pub fn get_native_sample<'a>(&self, entity_name: &'a str, index: usize) -> (r: Result<
        EngineCall<'a>,
        ConnectorError,
    >)
        ensures
            r == self.decides(
                index_of(index) is Some,
                is_c_text(entity_name@),
                (EngineCall::GetNativeSample {
                    connector: self.handle(),
                    entity_name,
                    index: index as i32,
                }),
            ),
            r matches Ok(call) ==> call.performable(),
    {
        let (in_range, index) = Self::position(index);
        self.decide(
            in_range,
            c_text(entity_name),
            EngineCall::GetNativeSample { connector: self.connector, entity_name, index },
        )
    }

    /// Waits up to `timeout` milliseconds for data on any reader of the
    /// session. Answer to [`crate::reply::data_count`], which fails on a
    /// negative answer of the engine and on no other.
    pub fn wait_fo_data(&self, timeout: u128) -> (r: Result<EngineCall<'static>, ConnectorError>)
        ensures
            r == self.decides(
                true,
                true,
                (EngineCall::WaitForDataOnReader {
                    handle: self.handle(),
                    timeout: timeout_of(timeout),
                }),
            ),
            r matches Ok(call) ==> call.performable(),
    {
        self.decide(
            true,
            true,
            EngineCall::WaitForDataOnReader {
                handle: self.connector,
                timeout: c_timeout(timeout),
            },
        )
    }

    /// Waits up to `ms_timeout` milliseconds for data on any reader of the
    /// session. Answer to [`crate::reply::data_arrival`], or to
    /// [`crate::reply::data_arrived`], which says whether data came.
    pub fn wait_for_data_on_reader(&self, ms_timeout: u128) -> (r: Result<
        EngineCall<'static>,
        ConnectorError,
    >)
        ensures
            r == self.decides(
                true,
                true,
                (EngineCall::WaitForDataOnReader {
                    handle: self.handle(),
                    timeout: timeout_of(ms_timeout),
                }),
            ),
            r matches Ok(call) ==> call.performable(),
    {
        self.decide(
            true,
            true,
            EngineCall::WaitForDataOnReader { handle: self.connector, timeout: c_timeout(ms_timeout) },
        )
    }

    /// Asks for the engine's text on the last failure in this process. It
    /// needs no session. Answer to [`crate::reply::last_error`].
    pub fn get_last_error() -> (call: EngineCall<'static>)
        ensures
            call == EngineCall::GetLastErrorMessage,
    {
        EngineCall::GetLastErrorMessage
    }

    /// Sets the limit of objects that one thread of the process may hold with
    /// the engine. It needs no session and holds for them all. A value that
    /// no C integer holds is a `ConfigError`. Answer to
    /// [`crate::reply::status`].
    pub fn set_max_objects_per_thread(value: usize) -> (r: Result<
        EngineCall<'static>,
        ConnectorError,
    >)
        ensures
            index_of(value) is None ==> r == Err::<EngineCall<'static>, _>(
                ConnectorError::ConfigError,
            ),
            index_of(value) is Some ==> r == Ok::<_, ConnectorError>(
                (EngineCall::SetMaxObjectsPerThread { value: value as i32 }),
            ),
            r matches Ok(call) ==> call.performable(),
    {
        match c_index(value) {
            Some(value) => Ok(EngineCall::SetMaxObjectsPerThread { value }),
            None => Err(ConnectorError::ConfigError),
        }
    }

    /// Whether a C integer holds `index`, and that integer; zero where none
    /// does.
    pub(crate) fn position(index: usize) -> (r: (bool, i32))
        ensures
            r.0 == (index_of(index) is Some),
            r.0 ==> r.1 == index as i32,
    {
        match c_index(index) {
            Some(position) => (true, position),
            None => (false, 0),
        }
    }
}

} // verus!
