use rticonnector::{
    Connector, ConnectorError, DataWriter, DynamicDataReader, DynamicDataWriter, EngineCall,
    Fetch, TopicError, TopicType,
};

const SESSION: usize = 0x5000;
const READER: usize = 0x6000;
const WRITER: usize = 0x7000;

/// The bits of the double in which the engine gives a count.
fn bits(count: usize) -> u64 {
    (count as f64).to_bits()
}

fn session() -> Connector {
    Connector::opened(SESSION).unwrap()
}

#[test]
fn reader_is_bound_to_session_name_and_address() {
    let connector = session();
    let reader = DynamicDataReader::bound(&connector, "MySquareReader", READER).unwrap();
    assert_eq!(reader.connector().handle(), SESSION);
    assert_eq!(reader.entity_name(), "MySquareReader");
    assert_eq!(reader.handle(), READER);
    assert_eq!(reader.samples(), 0);
}

#[test]
fn reader_is_not_bound_without_an_engine_reader() {
    let connector = session();
    assert_eq!(
        DynamicDataReader::bound(&connector, "R", 0).err(),
        Some(ConnectorError::ConfigError)
    );
    assert_eq!(
        DynamicDataReader::bound(&connector, "R\0", READER).err(),
        Some(ConnectorError::InvalidString)
    );
    assert_eq!(
        DynamicDataReader::bound(&connector, "R\0", 0).err(),
        Some(ConnectorError::InvalidString)
    );
}

#[test]
fn writer_is_bound_to_session_name_and_address() {
    let connector = session();
    let writer = DynamicDataWriter::bound(&connector, "MySquareWriter", WRITER).unwrap();
    assert_eq!(writer.connector().handle(), SESSION);
    assert_eq!(writer.entity_name(), "MySquareWriter");
    assert_eq!(writer.handle(), WRITER);
}

#[test]
fn writer_is_not_bound_without_an_engine_writer() {
    let connector = session();
    assert_eq!(
        DynamicDataWriter::bound(&connector, "W", 0).err(),
        Some(ConnectorError::ConfigError)
    );
    assert_eq!(
        DynamicDataWriter::bound(&connector, "\0", WRITER).err(),
        Some(ConnectorError::InvalidString)
    );
}

#[test]
fn reader_fetches_by_its_own_name() {
    let connector = session();
    let reader = DynamicDataReader::bound(&connector, "R", READER).unwrap();
    assert_eq!(reader.read(), Ok(EngineCall::Read { connector: SESSION, entity_name: "R" }));
    assert_eq!(reader.take(), Ok(EngineCall::Take { connector: SESSION, entity_name: "R" }));
    assert_eq!(reader.fetch(Fetch::Read), reader.read());
    assert_eq!(reader.fetch(Fetch::Take), reader.take());
    assert_eq!(reader.clear(), Ok(EngineCall::Clear { connector: SESSION, entity_name: "R" }));
    assert_eq!(
        reader.get_sample_count(),
        Ok(EngineCall::GetSampleCount { connector: SESSION, entity_name: "R" })
    );
    assert_eq!(
        reader.clear_member("x"),
        Ok(EngineCall::ClearMember { connector: SESSION, entity_name: "R", member_name: "x" })
    );
    assert_eq!(reader.clear_member("x\0"), Err(ConnectorError::InvalidString));
}

#[test]
fn batch_is_empty_until_it_is_counted() {
    let connector = session();
    let mut reader = DynamicDataReader::bound(&connector, "R", READER).unwrap();
    assert_eq!(reader.get_json_sample(0), Err(ConnectorError::SampleNotFound));
    assert_eq!(reader.fetched(0), Ok(EngineCall::GetSampleCount { connector: SESSION, entity_name: "R" }));
    assert_eq!(reader.samples(), 0);
    assert_eq!(reader.get_json_sample(0), Err(ConnectorError::SampleNotFound));
    assert_eq!(reader.counted(0, bits(2)), Ok(2));
    assert_eq!(reader.samples(), 2);
    assert_eq!(
        reader.get_json_sample(0),
        Ok(EngineCall::GetJsonSample { connector: SESSION, entity_name: "R", index: 0 })
    );
    assert_eq!(
        reader.get_json_sample(1),
        Ok(EngineCall::GetJsonSample { connector: SESSION, entity_name: "R", index: 1 })
    );
    assert_eq!(reader.get_json_sample(2), Err(ConnectorError::SampleNotFound));
}

#[test]
fn fetch_drops_the_batch_of_before() {
    let connector = session();
    let mut reader = DynamicDataReader::bound(&connector, "R", READER).unwrap();
    assert_eq!(reader.counted(0, bits(5)), Ok(5));
    assert_eq!(reader.fetched(0), Ok(EngineCall::GetSampleCount { connector: SESSION, entity_name: "R" }));
    assert_eq!(reader.samples(), 0);
    assert_eq!(reader.counted(0, bits(5)), Ok(5));
    assert_eq!(reader.fetched(1), Err(ConnectorError::FfiError));
    assert_eq!(reader.samples(), 0);
    assert_eq!(reader.counted(0, bits(5)), Ok(5));
    assert_eq!(reader.fetched(10), Err(ConnectorError::FfiError));
    assert_eq!(reader.samples(), 0);
}

#[test]
fn failed_count_leaves_an_empty_batch() {
    let connector = session();
    let mut reader = DynamicDataReader::bound(&connector, "R", READER).unwrap();
    assert_eq!(reader.counted(0, bits(4)), Ok(4));
    assert_eq!(reader.counted(1, bits(9)), Err(ConnectorError::FfiError));
    assert_eq!(reader.samples(), 0);
}

#[test]
fn count_beyond_what_the_engine_addresses_is_cut() {
    let connector = session();
    let mut reader = DynamicDataReader::bound(&connector, "R", READER).unwrap();
    assert_eq!(reader.counted(0, bits(2_147_483_647)), Ok(2_147_483_647));
    assert_eq!(reader.counted(0, bits(2_147_483_648)), Ok(2_147_483_647));
    assert_eq!(reader.counted(0, 1e15f64.to_bits()), Ok(2_147_483_647));
    assert_eq!(reader.samples(), 2_147_483_647);
    assert_eq!(
        reader.get_json_sample(2_147_483_646),
        Ok(EngineCall::GetJsonSample { connector: SESSION, entity_name: "R", index: 2_147_483_646 })
    );
    assert_eq!(reader.get_json_sample(2_147_483_647), Err(ConnectorError::SampleNotFound));
}

#[test]
fn answer_that_is_no_count_leaves_an_empty_batch() {
    let connector = session();
    let mut reader = DynamicDataReader::bound(&connector, "R", READER).unwrap();
    for no_count in [-1.0, 0.5, 2.5, f64::NAN, f64::INFINITY, f64::NEG_INFINITY, 1e300] {
        assert_eq!(reader.counted(0, bits(4)), Ok(4));
        assert_eq!(reader.counted(0, no_count.to_bits()), Err(ConnectorError::FfiError));
        assert_eq!(reader.samples(), 0);
    }
}

#[test]
fn clear_empties_the_batch_where_the_engine_did() {
    let connector = session();
    let mut reader = DynamicDataReader::bound(&connector, "R", READER).unwrap();
    assert_eq!(reader.counted(0, bits(3)), Ok(3));
    assert_eq!(reader.cleared(1), Err(ConnectorError::FfiError));
    assert_eq!(reader.samples(), 3);
    assert_eq!(reader.cleared(0), Ok(()));
    assert_eq!(reader.samples(), 0);
}

#[test]
fn reader_reads_fields_of_its_batch() {
    let connector = session();
    let mut reader = DynamicDataReader::bound(&connector, "R", READER).unwrap();
    assert_eq!(reader.counted(0, bits(2)), Ok(2));
    assert_eq!(
        reader.get_boolean_from_sample(1, "visible"),
        Ok(EngineCall::GetBooleanFromSample {
            connector: SESSION,
            entity_name: "R",
            index: 1,
            field_name: "visible",
        })
    );
    assert_eq!(
        reader.get_number_from_sample(0, "x"),
        Ok(EngineCall::GetNumberFromSample {
            connector: SESSION,
            entity_name: "R",
            index: 0,
            field_name: "x",
        })
    );
    assert_eq!(
        reader.get_string_from_sample(1, "color"),
        Ok(EngineCall::GetStringFromSample {
            connector: SESSION,
            entity_name: "R",
            index: 1,
            field_name: "color",
        })
    );
    assert_eq!(
        reader.get_json_member(0, "position"),
        Ok(EngineCall::GetJsonMember {
            connector: SESSION,
            entity_name: "R",
            index: 0,
            member_name: "position",
        })
    );
    assert_eq!(reader.get_string_from_sample(1, "co\0lor"), Err(ConnectorError::InvalidString));
    assert_eq!(reader.get_string_from_sample(2, "color"), Err(ConnectorError::SampleNotFound));
}

#[test]
fn reader_waits_on_its_own_address() {
    let connector = session();
    let reader = DynamicDataReader::bound(&connector, "R", READER).unwrap();
    assert_eq!(
        reader.wait_for_data_on_reader(1),
        Ok(EngineCall::WaitForDataOnReader { handle: READER, timeout: 1 })
    );
    assert_eq!(
        reader.wait_for_matched_publication(500),
        Ok(EngineCall::WaitForMatchedPublication { reader: READER, timeout: 500 })
    );
    assert_eq!(
        reader.wait_for_matched_publication(-1),
        Ok(EngineCall::WaitForMatchedPublication { reader: READER, timeout: -1 })
    );
    assert_eq!(
        reader.get_matched_publications(),
        Ok(EngineCall::GetMatchedPublications { reader: READER })
    );
}

#[test]
fn writer_stages_and_sends_by_its_own_name() {
    let connector = session();
    let writer = DynamicDataWriter::bound(&connector, "W", WRITER).unwrap();
    assert_eq!(
        writer.set_boolean_into_samples("visible", true),
        Ok(EngineCall::SetBooleanIntoSamples {
            connector: SESSION,
            entity_name: "W",
            field_name: "visible",
            value: 1,
        })
    );
    assert_eq!(
        writer.set_number_into_samples("x", 1.5f64.to_bits()),
        Ok(EngineCall::SetNumberIntoSamples {
            connector: SESSION,
            entity_name: "W",
            field_name: "x",
            value: 1.5f64.to_bits(),
        })
    );
    assert_eq!(
        writer.set_string_into_samples("color", "BLUE"),
        Ok(EngineCall::SetStringIntoSamples {
            connector: SESSION,
            entity_name: "W",
            field_name: "color",
            value: "BLUE",
        })
    );
    assert_eq!(
        writer.set_json_instance("{\"color\":\"RED\"}"),
        Ok(EngineCall::SetJsonInstance {
            connector: SESSION,
            entity_name: "W",
            json: "{\"color\":\"RED\"}",
        })
    );
    assert_eq!(
        writer.clear_member("color"),
        Ok(EngineCall::ClearMember { connector: SESSION, entity_name: "W", member_name: "color" })
    );
    assert_eq!(writer.clear(), Ok(EngineCall::Clear { connector: SESSION, entity_name: "W" }));
    assert_eq!(
        writer.write(""),
        Ok(EngineCall::Write { connector: SESSION, entity_name: "W", params_json: "" })
    );
    assert_eq!(writer.write("{\0}"), Err(ConnectorError::InvalidString));
    assert_eq!(writer.set_string_into_samples("color", "\0"), Err(ConnectorError::InvalidString));
}

#[test]
fn writer_waits_on_its_own_address() {
    let connector = session();
    let writer = DynamicDataWriter::bound(&connector, "W", WRITER).unwrap();
    assert_eq!(
        writer.wait_for_acknowledgments(1000),
        Ok(EngineCall::WaitForAcknowledgments { writer: WRITER, timeout: 1000 })
    );
    assert_eq!(
        writer.wait_for_matched_subscription(3_000_000_000),
        Ok(EngineCall::WaitForMatchedSubscription { writer: WRITER, timeout: i32::MAX })
    );
    assert_eq!(
        writer.get_matched_publications(),
        Ok(EngineCall::GetMatchedSubscriptions { writer: WRITER })
    );
}

#[derive(Debug, PartialEq)]
struct Reading(i64);

impl TopicType for Reading {
    fn type_path() -> String {
        "sensors::Reading".to_string()
    }

    fn to_json(&self) -> Result<String, serde_json::Error> {
        if self.0 < 0 {
            return Err(<serde_json::Error as serde::ser::Error>::custom("negative reading"));
        }
        serde_json::to_string(&serde_json::Value::from(self.0))
    }

    fn from_json(json: &str) -> Result<Self, serde_json::Error> {
        serde_json::from_str::<i64>(json).map(Reading)
    }
}

#[test]
fn typed_writer_encodes_then_writes() {
    let connector = session();
    let typed: DataWriter<Reading> =
        DataWriter::new(DynamicDataWriter::bound(&connector, "W", WRITER).unwrap());
    assert_eq!(typed.writer().handle(), WRITER);
    let json = typed.publish(&Reading(42)).unwrap();
    assert_eq!(json, "42");
    assert_eq!(
        typed.write(&json),
        Ok(EngineCall::Write { connector: SESSION, entity_name: "W", params_json: "42" })
    );
    assert_eq!(Reading(42).name(), "Reading");
}

#[test]
fn typed_writer_reports_what_the_codec_said() {
    let connector = session();
    let typed: DataWriter<Reading> =
        DataWriter::new(DynamicDataWriter::bound(&connector, "W", WRITER).unwrap());
    match typed.publish(&Reading(-1)) {
        Err(TopicError::Encode(error)) => assert_eq!(error.to_string(), "negative reading"),
        other => panic!("unexpected outcome: {:?}", other),
    }
}

#[test]
fn typed_writer_waits_as_its_writer_does() {
    let connector = session();
    let typed: DataWriter<Reading> =
        DataWriter::new(DynamicDataWriter::bound(&connector, "W", WRITER).unwrap());
    assert_eq!(
        typed.wait_for_acknowledgments(20),
        Ok(EngineCall::WaitForAcknowledgments { writer: WRITER, timeout: 20 })
    );
    assert_eq!(
        typed.wait_for_matched_subscription(20),
        Ok(EngineCall::WaitForMatchedSubscription { writer: WRITER, timeout: 20 })
    );
    assert_eq!(
        typed.get_matched_publications(),
        Ok(EngineCall::GetMatchedSubscriptions { writer: WRITER })
    );
    assert_eq!(DataWriter::<Reading>::matched_publications(0, rticonnector::EngineText::Text("3".to_string())).ok(), Some(Reading(3)));
}

#[test]
fn codec_round_trips_through_encode_and_decode() {
    for value in [0, 1, 42, i64::MAX] {
        let json = rticonnector::topic::encode(&Reading(value)).unwrap();
        assert_eq!(rticonnector::topic::decode::<Reading>(&json).unwrap(), Reading(value));
    }
}
