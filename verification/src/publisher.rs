//! Writers: the publication endpoints of a session.

use core::marker::PhantomData;
use vstd::prelude::*;
use crate::connector::Connector;
use crate::engine::{c_timeout, timeout_of, EngineCall};
use crate::error::ConnectorError;
use crate::options::flag_of;
use crate::reply::{matched_entities, text_of, EngineText};
use crate::text::{c_text, is_c_text};
use crate::topic::{decode, decode_yields, encode, encode_yields, TopicError, TopicType};

verus! {

/// A writer that a session resolved by name.
///
/// It borrows the session. The instance that it stages, field by field or
/// whole, lives in the engine, which sends it as one sample on `write`.
#[derive(Debug)]
pub struct DynamicDataWriter<'a> {
    connector: &'a Connector,
    entity_name: &'a str,
    data_writer: usize,
}

impl<'a> DynamicDataWriter<'a> {
    /// The session that the writer borrows.
    pub closed spec fn spec_connector(&self) -> &'a Connector {
        self.connector
    }

    #[verifier::when_used_as_spec(spec_connector)]
    pub fn connector(&self) -> (session: &'a Connector)
        ensures
            session == self.spec_connector(),
    {
        self.connector
    }

    /// The name that the writer was resolved by.
    pub closed spec fn spec_entity_name(&self) -> &'a str {
        self.entity_name
    }

    #[verifier::when_used_as_spec(spec_entity_name)]
    pub fn entity_name(&self) -> (name: &'a str)
        ensures
            name == self.spec_entity_name(),
    {
        self.entity_name
    }

    /// The address of the engine's writer.
    pub closed spec fn spec_handle(&self) -> usize {
        self.data_writer
    }

    #[verifier::when_used_as_spec(spec_handle)]
    pub fn handle(&self) -> (address: usize)
        ensures
            address == self.spec_handle(),
    {
        self.data_writer
    }

    /// What holds of every writer: its engine's writer exists and its name
    /// can cross to the engine.
    pub open spec fn wf(&self) -> bool {
        &&& self.handle() != 0
        &&& is_c_text(self.entity_name()@)
    }

    /// The writer that the engine resolved at `address` for `entity_name`. A
    /// session without an instance has no writers (`NullPointer`); a name
    /// that cannot cross names none (`InvalidString`); and where the engine
    /// found none of that name and answered zero, that is a `ConfigError`.
    pub fn bound(connector: &'a Connector, entity_name: &'a str, address: usize) -> (r: Result<
        DynamicDataWriter<'a>,
        ConnectorError,
    >)
        ensures
            connector.is_null() ==> r matches Err(ConnectorError::NullPointer),
            !connector.is_null() && !is_c_text(entity_name@) ==> r matches Err(
                ConnectorError::InvalidString,
            ),
            !connector.is_null() && is_c_text(entity_name@) && address == 0 ==> r matches Err(
                ConnectorError::ConfigError,
            ),
            !connector.is_null() && is_c_text(entity_name@) && address != 0 ==> (r matches Ok(
                writer,
            ) && writer.connector() == connector && writer.entity_name() == entity_name
                && writer.handle() == address && writer.wf()),
    {
        if connector.is_null() {
            Err(ConnectorError::NullPointer)
        } else if !c_text(entity_name) {
            Err(ConnectorError::InvalidString)
        } else if address == 0 {
            Err(ConnectorError::ConfigError)
        } else {
            Ok(DynamicDataWriter { connector, entity_name, data_writer: address })
        }
    }

    /// Stages a boolean field of the instance. Answer to
    /// [`crate::reply::status`].
    pub fn set_boolean_into_samples<'b>(&'b self, field_name: &'b str, value: bool) -> (r: Result<
        EngineCall<'b>,
        ConnectorError,
    >)
        ensures
            r == self.connector().decides(
                true,
                is_c_text(self.entity_name()@) && is_c_text(field_name@),
                (EngineCall::SetBooleanIntoSamples {
                    connector: self.connector().handle(),
                    entity_name: self.entity_name(),
                    field_name,
                    value: flag_of(value),
                }),
            ),
            r matches Ok(call) ==> call.performable(),
    {
        self.connector.set_boolean_into_samples(self.entity_name, field_name, value)
    }

    /// Stages a number field of the instance; `value` holds the bits of the
    /// double. Answer to [`crate::reply::status`].
    pub fn set_number_into_samples<'b>(&'b self, field_name: &'b str, value: u64) -> (r: Result<
        EngineCall<'b>,
        ConnectorError,
    >)
        ensures
            r == self.connector().decides(
                true,
                is_c_text(self.entity_name()@) && is_c_text(field_name@),
                (EngineCall::SetNumberIntoSamples {
                    connector: self.connector().handle(),
                    entity_name: self.entity_name(),
                    field_name,
                    value,
                }),
            ),
            r matches Ok(call) ==> call.performable(),
    {
        self.connector.set_number_into_samples(self.entity_name, field_name, value)
    }

    /// Stages a string field of the instance. Answer to
    /// [`crate::reply::status`].
    pub fn set_string_into_samples<'b>(&'b self, field_name: &'b str, value: &'b str) -> (r:
        Result<EngineCall<'b>, ConnectorError>)
        ensures
            r == self.connector().decides(
                true,
                is_c_text(self.entity_name()@) && is_c_text(field_name@) && is_c_text(value@),
                (EngineCall::SetStringIntoSamples {
                    connector: self.connector().handle(),
                    entity_name: self.entity_name(),
                    field_name,
                    value,
                }),
            ),
            r matches Ok(call) ==> call.performable(),
    {
        self.connector.set_string_into_samples(self.entity_name, field_name, value)
    }

    /// Replaces the staged instance, whole, by the one that `json`
    /// describes. Answer to [`crate::reply::status`].
    pub fn set_json_instance<'b>(&'b self, json: &'b str) -> (r: Result<
        EngineCall<'b>,
        ConnectorError,
    >)
        ensures
            r == self.connector().decides(
                true,
                is_c_text(self.entity_name()@) && is_c_text(json@),
                (EngineCall::SetJsonInstance {
                    connector: self.connector().handle(),
                    entity_name: self.entity_name(),
                    json,
                }),
            ),
            r matches Ok(call) ==> call.performable(),
    {
        self.connector.set_json_instance(self.entity_name, json)
    }

    /// Resets one member of the staged instance to its default. Answer to
    /// [`crate::reply::status`].
    pub fn clear_member<'b>(&'b self, member_name: &'b str) -> (r: Result<
        EngineCall<'b>,
        ConnectorError,
    >)
        ensures
            r == self.connector().decides(
                true,
                is_c_text(self.entity_name()@) && is_c_text(member_name@),
                (EngineCall::ClearMember {
                    connector: self.connector().handle(),
                    entity_name: self.entity_name(),
                    member_name,
                }),
            ),
            r matches Ok(call) ==> call.performable(),
    {
        self.connector.clear_member(self.entity_name, member_name)
    }

    /// Drops the staged instance. Answer to [`crate::reply::status`].
    pub fn clear(&self) -> (r: Result<EngineCall<'a>, ConnectorError>)
        ensures
            r == self.connector().decides(
                true,
                is_c_text(self.entity_name()@),
                (EngineCall::Clear {
                    connector: self.connector().handle(),
                    entity_name: self.entity_name(),
                }),
            ),
            r matches Ok(call) ==> call.performable(),
    {
        self.connector.clear(self.entity_name)
    }

    /// Sends the staged instance as one sample, with the parameters that
    /// `params_json` describes. Answer to [`crate::reply::status`].
    pub fn write<'b>(&'b self, params_json: &'b str) -> (r: Result<EngineCall<'b>, ConnectorError>)
        ensures
            r == self.connector().decides(
                true,
                is_c_text(self.entity_name()@) && is_c_text(params_json@),
                (EngineCall::Write {
                    connector: self.connector().handle(),
                    entity_name: self.entity_name(),
                    params_json,
                }),
            ),
            r matches Ok(call) ==> call.performable(),
    {
        self.connector.write(self.entity_name, params_json)
    }

    /// Waits up to `timeout` milliseconds for the readers to acknowledge
    /// what was written. Answer to [`crate::reply::acknowledgments`].
    pub fn wait_for_acknowledgments(&self, timeout: u128) -> (r: Result<
        EngineCall<'static>,
        ConnectorError,
    >)
        ensures
            r == self.connector().decides_at(
                self.handle(),
                (EngineCall::WaitForAcknowledgments {
                    writer: self.handle(),
                    timeout: timeout_of(timeout),
                }),
            ),
            r matches Ok(call) ==> call.performable(),
    {
        self.connector.decide_at(
            self.data_writer,
            EngineCall::WaitForAcknowledgments {
                writer: self.data_writer,
                timeout: c_timeout(timeout),
            },
        )
    }

    /// Waits up to `ms_timeout` milliseconds for the subscriptions that
    /// match this writer to change. Answer to
    /// [`crate::reply::match_change`].
    pub fn wait_for_matched_subscription(&self, ms_timeout: u128) -> (r: Result<
        EngineCall<'static>,
        ConnectorError,
    >)
        ensures
            r == self.connector().decides_at(
                self.handle(),
                (EngineCall::WaitForMatchedSubscription {
                    writer: self.handle(),
                    timeout: timeout_of(ms_timeout),
                }),
            ),
            r matches Ok(call) ==> call.performable(),
    {
        self.connector.decide_at(
            self.data_writer,
            EngineCall::WaitForMatchedSubscription {
                writer: self.data_writer,
                timeout: c_timeout(ms_timeout),
            },
        )
    }

    /// Lists the subscriptions that match this writer now: the peers that its
    /// publication is matched with. Answer to
    /// [`crate::reply::matched_entities`].
    pub fn get_matched_publications(&self) -> (r: Result<EngineCall<'static>, ConnectorError>)
        ensures
            r == self.connector().decides_at(
                self.handle(),
                (EngineCall::GetMatchedSubscriptions { writer: self.handle() }),
            ),
            r matches Ok(call) ==> call.performable(),
    {
        self.connector.decide_at(
            self.data_writer,
            EngineCall::GetMatchedSubscriptions { writer: self.data_writer },
        )
    }
}

/// A writer whose samples are the values of one topic type.
#[derive(Debug)]
pub struct DataWriter<'a, T: TopicType> {
    writer: DynamicDataWriter<'a>,
    _marker: PhantomData<T>,
}

impl<'a, T: TopicType> DataWriter<'a, T> {
    /// The writer that sends the samples.
    pub closed spec fn spec_writer(&self) -> &DynamicDataWriter<'a> {
        &self.writer
    }

    #[verifier::when_used_as_spec(spec_writer)]
    pub fn writer(&self) -> (writer: &DynamicDataWriter<'a>)
        ensures
            writer == self.spec_writer(),
    {
        &self.writer
    }

    /// Binds a writer to the topic type `T`.
    pub fn new(writer: DynamicDataWriter<'a>) -> (typed: DataWriter<'a, T>)
        ensures
            typed.writer() == writer,
    {
        DataWriter { writer, _marker: PhantomData }
    }

    /// Encodes `value` for publication, as the codec of `T` does. A
    /// destroyed session is refused before the value is encoded; a value
    /// without a text is an `Encode` error that holds what the codec said.
    /// The text is then sent with [`DataWriter::write`].
    pub fn publish(&self, value: &T) -> (r: Result<String, TopicError>)
        ensures
            self.writer().connector().is_null() ==> r matches Err(
                TopicError::Connector(ConnectorError::NullPointer),
            ),
            !self.writer().connector().is_null() ==> encode_yields(value, r),
    {
        if self.writer.connector().is_null() {
            Err(TopicError::Connector(ConnectorError::NullPointer))
        } else {
            encode(value)
        }
    }

    /// Sends the text of a value as one sample. Answer to
    /// [`crate::reply::status`].
    pub fn write<'b>(&'b self, json: &'b str) -> (r: Result<EngineCall<'b>, ConnectorError>)
        ensures
            r == self.writer().connector().decides(
                true,
                is_c_text(self.writer().entity_name()@) && is_c_text(json@),
                (EngineCall::Write {
                    connector: self.writer().connector().handle(),
                    entity_name: self.writer().entity_name(),
                    params_json: json,
                }),
            ),
            r matches Ok(call) ==> call.performable(),
    {
        self.writer.write(json)
    }

    /// Waits up to `timeout` milliseconds for the readers to acknowledge
    /// what was written. Answer to [`crate::reply::acknowledgments`].
    pub fn wait_for_acknowledgments(&self, timeout: u128) -> (r: Result<
        EngineCall<'static>,
        ConnectorError,
    >)
        ensures
            r == self.writer().connector().decides_at(
                self.writer().handle(),
                (EngineCall::WaitForAcknowledgments {
                    writer: self.writer().handle(),
                    timeout: timeout_of(timeout),
                }),
            ),
            r matches Ok(call) ==> call.performable(),
    {
        self.writer.wait_for_acknowledgments(timeout)
    }

    /// Waits up to `ms_timeout` milliseconds, as the engine reads them, for
    /// the subscriptions that match this writer to change. Answer to
    /// [`crate::reply::match_change`].
    pub fn wait_for_matched_subscription(&self, ms_timeout: i32) -> (r: Result<
        EngineCall<'static>,
        ConnectorError,
    >)
        ensures
            r == self.writer().connector().decides_at(
                self.writer().handle(),
                (EngineCall::WaitForMatchedSubscription {
                    writer: self.writer().handle(),
                    timeout: ms_timeout,
                }),
            ),
            r matches Ok(call) ==> call.performable(),
    {
        self.writer.connector().decide_at(
            self.writer.handle(),
            EngineCall::WaitForMatchedSubscription {
                writer: self.writer().handle(),
                timeout: ms_timeout,
            },
        )
    }

    /// Lists the subscriptions that match this writer now. Answer to
    /// [`DataWriter::matched_publications`], which decodes the list as a
    /// value of `T`.
    pub fn get_matched_publications(&self) -> (r: Result<EngineCall<'static>, ConnectorError>)
        ensures
            r == self.writer().connector().decides_at(
                self.writer().handle(),
                (EngineCall::GetMatchedSubscriptions { writer: self.writer().handle() }),
            ),
            r matches Ok(call) ==> call.performable(),
    {
        self.writer.get_matched_publications()
    }

    /// The list of matches that the engine answered, decoded as a value of
    /// `T`. A failure of the engine is an `FfiError`, a list that the engine
    /// did not give or that is not UTF-8 an `InvalidString`, and a list that
    /// is no value of `T` a `Decode` error that holds what the codec said.
    pub fn matched_publications(code: i32, json: EngineText) -> (r: Result<T, TopicError>)
        ensures
            text_of(code, json, ConnectorError::InvalidString) matches Err(error) ==> r == Err::<
                T,
                _,
            >(TopicError::Connector(error)),
            text_of(code, json, ConnectorError::InvalidString) matches Ok(list) ==> decode_yields(
                list@,
                r,
            ),
    {
        match matched_entities(code, json) {
            Err(error) => Err(TopicError::Connector(error)),
            Ok(list) => decode(list.as_str()),
        }
    }
}

} // verus!
