use rticonnector::diagnosis::{Diagnosis, Stage};
use rticonnector::reply;
use rticonnector::{ConnectorError, EngineCall, EngineText};

fn some(text: &str) -> EngineText {
    EngineText::Text(text.to_string())
}

fn field(index: i32) -> EngineCall<'static> {
    EngineCall::GetStringFromSample { connector: 7, entity_name: "R", index, field_name: "color" }
}

fn searching(call: EngineCall<'static>) -> Diagnosis<'static> {
    Diagnosis { refused: call, stage: Stage::Counting }
}

fn settled(call: EngineCall<'static>, cause: ConnectorError) -> Diagnosis<'static> {
    Diagnosis { refused: call, stage: Stage::Settled(cause) }
}

#[test]
fn status_is_done_on_success_only() {
    assert_eq!(reply::status(0), Ok(()));
    assert_eq!(reply::status(1), Err(ConnectorError::FfiError));
    assert_eq!(reply::status(-1), Err(ConnectorError::FfiError));
    assert_eq!(reply::status(10), Err(ConnectorError::FfiError));
    assert_eq!(reply::status(11), Err(ConnectorError::FfiError));
}

#[test]
fn text_answers_go_four_ways() {
    let missing = ConnectorError::MemberNotFound;
    assert_eq!(reply::text(0, some("{}"), missing), Ok("{}".to_string()));
    assert_eq!(reply::text(0, EngineText::Absent, missing), Err(ConnectorError::MemberNotFound));
    assert_eq!(reply::text(0, EngineText::Garbled, missing), Err(ConnectorError::InvalidString));
    assert_eq!(reply::text(1, some("{}"), missing), Err(ConnectorError::FfiError));
    assert_eq!(reply::text(1, EngineText::Absent, missing), Err(ConnectorError::FfiError));
    assert_eq!(reply::text(1, EngineText::Garbled, missing), Err(ConnectorError::FfiError));
}

#[test]
fn read_answers_are_the_value_or_a_search() {
    assert_eq!(reply::read(field(0), 0, 5u8), Ok(5));
    assert_eq!(reply::read(field(0), 1, 5u8), Err(searching(field(0))));
    assert_eq!(reply::read(field(0), 10, 5u8), Err(searching(field(0))));
    let other = EngineCall::Read { connector: 7, entity_name: "R" };
    assert_eq!(reply::read(other, 1, 5u8), Err(settled(other, ConnectorError::FfiError)));
}

#[test]
fn sample_count_is_what_the_engine_counted() {
    let call = EngineCall::GetSampleCount { connector: 7, entity_name: "R" };
    assert_eq!(reply::sample_count(call, 0, 0.0f64.to_bits()), Ok(0));
    assert_eq!(reply::sample_count(call, 0, 3.0f64.to_bits()), Ok(3));
    assert_eq!(reply::sample_count(call, 1, 3.0f64.to_bits()), Err(Diagnosis::begin(call)));
    assert_eq!(Diagnosis::begin(call).next(), Ok(EngineCall::GetDatareader { connector: 7, entity_name: "R" }));
}

#[test]
fn sample_count_that_is_no_count_is_a_failure() {
    let call = EngineCall::GetSampleCount { connector: 7, entity_name: "R" };
    for no_count in [-1.0, -0.25, 0.5, 1.5, f64::NAN, f64::INFINITY, f64::NEG_INFINITY, 1e300] {
        assert_eq!(
            reply::sample_count(call, 0, no_count.to_bits()),
            Err(settled(call, ConnectorError::FfiError)),
            "{}",
            no_count
        );
    }
}

#[test]
fn boolean_of_the_infos_is_one_or_zero() {
    assert_eq!(reply::boolean_from_infos(0, 1), Ok(true));
    assert_eq!(reply::boolean_from_infos(0, 0), Ok(false));
    assert_eq!(reply::boolean_from_infos(0, 2), Err(ConnectorError::FieldNotBoolean));
    assert_eq!(reply::boolean_from_infos(0, -1), Err(ConnectorError::FieldNotBoolean));
    assert_eq!(reply::boolean_from_infos(1, 1), Err(ConnectorError::FfiError));
    assert_eq!(reply::boolean_from_infos(-1, 7), Err(ConnectorError::FfiError));
}

#[test]
fn boolean_of_a_sample_is_true_but_for_zero() {
    let call = EngineCall::GetBooleanFromSample { connector: 7, entity_name: "R", index: 0, field_name: "v" };
    assert_eq!(reply::boolean_from_sample(call, 0, 0), Ok(false));
    assert_eq!(reply::boolean_from_sample(call, 0, 1), Ok(true));
    assert_eq!(reply::boolean_from_sample(call, 0, 2), Ok(true));
    assert_eq!(reply::boolean_from_sample(call, 0, -1), Ok(true));
    assert_eq!(reply::boolean_from_sample(call, 1, 1), Err(searching(call)));
}

#[test]
fn number_of_a_sample_keeps_its_bits() {
    let call = EngineCall::GetNumberFromSample { connector: 7, entity_name: "R", index: 0, field_name: "x" };
    let bits = 20.25f64.to_bits();
    assert_eq!(reply::number_from_sample(call, 0, bits).map(f64::from_bits), Ok(20.25));
    assert_eq!(reply::number_from_sample(call, 0, 0), Ok(0));
    assert_eq!(reply::number_from_sample(call, 2, bits), Err(searching(call)));
}

#[test]
fn string_of_a_sample() {
    let call = field(0);
    assert_eq!(reply::string_from_sample(call, 0, some("BLUE")), Ok("BLUE".to_string()));
    assert_eq!(reply::string_from_sample(call, 0, some("")), Ok(String::new()));
    assert_eq!(
        reply::string_from_sample(call, 0, EngineText::Absent),
        Err(settled(call, ConnectorError::InvalidString))
    );
    assert_eq!(
        reply::string_from_sample(call, 0, EngineText::Garbled),
        Err(settled(call, ConnectorError::InvalidString))
    );
    assert_eq!(reply::string_from_sample(call, 1, some("BLUE")), Err(searching(call)));
}

#[test]
fn json_answers_name_what_is_missing() {
    assert_eq!(reply::json_from_infos(0, some("{}")), Ok("{}".to_string()));
    assert_eq!(reply::json_from_infos(0, EngineText::Absent), Err(ConnectorError::FieldNotFound));
    assert_eq!(reply::json_from_infos(0, EngineText::Garbled), Err(ConnectorError::InvalidString));
    assert_eq!(reply::json_from_infos(3, EngineText::Absent), Err(ConnectorError::FfiError));
    let whole = EngineCall::GetJsonSample { connector: 7, entity_name: "R", index: 0 };
    assert_eq!(reply::json_sample(whole, 0, some("{\"x\":1}")), Ok("{\"x\":1}".to_string()));
    assert_eq!(
        reply::json_sample(whole, 0, EngineText::Absent),
        Err(settled(whole, ConnectorError::SampleNotFound))
    );
    assert_eq!(reply::json_sample(whole, 3, some("{}")), Err(searching(whole)));
    let member = EngineCall::GetJsonMember { connector: 7, entity_name: "R", index: 0, member_name: "m" };
    assert_eq!(reply::json_member(member, 0, some("[1,2]")), Ok("[1,2]".to_string()));
    assert_eq!(
        reply::json_member(member, 0, EngineText::Absent),
        Err(settled(member, ConnectorError::MemberNotFound))
    );
    assert_eq!(
        reply::json_member(member, 0, EngineText::Garbled),
        Err(settled(member, ConnectorError::InvalidString))
    );
    assert_eq!(reply::json_member(member, 3, EngineText::Absent), Err(searching(member)));
    assert_eq!(reply::matched_entities(0, some("[]")), Ok("[]".to_string()));
    assert_eq!(reply::matched_entities(0, EngineText::Absent), Err(ConnectorError::InvalidString));
    assert_eq!(reply::matched_entities(0, EngineText::Garbled), Err(ConnectorError::InvalidString));
    assert_eq!(reply::matched_entities(3, some("[]")), Err(ConnectorError::FfiError));
}

#[test]
fn native_sample_is_an_address() {
    assert_eq!(reply::native_sample(0x7000), Ok(0x7000));
    assert_eq!(reply::native_sample(0), Err(ConnectorError::SampleNotFound));
}

#[test]
fn last_error_is_the_engine_text() {
    assert_eq!(reply::last_error(some("no such entity")), "no such entity");
    assert_eq!(reply::last_error(EngineText::Absent), "");
    assert_eq!(reply::last_error(EngineText::Garbled), "");
}

#[test]
fn wait_fails_on_every_code_but_success_and_timeout() {
    assert!(!reply::is_wait_failure(0));
    assert!(!reply::is_wait_failure(10));
    assert!(reply::is_wait_failure(11));
    assert!(reply::is_wait_failure(1));
    assert!(reply::is_wait_failure(-1));
    assert!(reply::is_wait_failure(i32::MIN));
}

#[test]
fn timeout_is_not_failure() {
    assert_eq!(reply::data_count(10), Ok(0));
    assert_eq!(reply::data_arrival(10), Ok(()));
    assert_eq!(reply::reader_data(10), Ok(0));
    assert_eq!(reply::data_arrived(10), Ok(false));
    assert_eq!(reply::match_change(10, 0), Ok(0));
    assert_eq!(reply::match_change(10, 5), Ok(0));
    assert_eq!(reply::acknowledgments(10), Ok(10));
}

#[test]
fn wait_tells_arrival_from_timeout() {
    assert_eq!(reply::data_arrived(0), Ok(true));
    assert_eq!(reply::data_arrived(10), Ok(false));
    assert_ne!(reply::data_arrived(0), reply::data_arrived(10));
    assert_eq!(reply::data_arrived(1), Err(ConnectorError::FfiError));
    assert_eq!(reply::data_arrived(11), Err(ConnectorError::FfiError));
    assert_eq!(reply::data_arrived(-1), Err(ConnectorError::FfiError));
}

#[test]
fn wait_for_data_succeeds_and_fails() {
    assert_eq!(reply::data_count(0), Ok(0));
    assert_eq!(reply::data_count(1), Ok(1));
    assert_eq!(reply::data_count(3), Ok(3));
    assert_eq!(reply::data_count(11), Ok(11));
    assert_eq!(reply::data_count(i32::MAX), Ok(2_147_483_647));
    assert_eq!(reply::data_count(-1), Err(ConnectorError::FfiError));
    assert_eq!(reply::data_count(-10), Err(ConnectorError::FfiError));
    assert_eq!(reply::data_count(i32::MIN), Err(ConnectorError::FfiError));
    assert_eq!(reply::data_arrival(0), Ok(()));
    assert_eq!(reply::data_arrival(1), Err(ConnectorError::FfiError));
    assert_eq!(reply::data_arrival(11), Err(ConnectorError::FfiError));
    assert_eq!(reply::reader_data(0), Ok(0));
    assert_eq!(reply::reader_data(1), Err(ConnectorError::FfiError));
    assert_eq!(reply::reader_data(-3), Err(ConnectorError::FfiError));
}

#[test]
fn match_change_is_signed() {
    assert_eq!(reply::match_change(0, 1), Ok(1));
    assert_eq!(reply::match_change(0, -2), Ok(-2));
    assert_eq!(reply::match_change(0, 0), Ok(0));
    assert_eq!(reply::match_change(1, 1), Err(ConnectorError::FfiError));
    assert_eq!(reply::match_change(-1, -1), Err(ConnectorError::FfiError));
}

#[test]
fn negative_acknowledgment_answer_is_no_count() {
    assert_eq!(reply::acknowledgments(0), Ok(0));
    assert_eq!(reply::acknowledgments(3), Ok(3));
    assert_eq!(reply::acknowledgments(i32::MAX), Ok(i32::MAX));
    assert_eq!(reply::acknowledgments(-1), Err(ConnectorError::FfiError));
    assert_eq!(reply::acknowledgments(i32::MIN), Err(ConnectorError::FfiError));
}

#[test]
fn staged_flag_reads_back() {
    let call = EngineCall::GetBooleanFromSample { connector: 7, entity_name: "R", index: 0, field_name: "v" };
    for value in [true, false] {
        let staged = rticonnector::options::flag(value);
        assert_eq!(reply::boolean_from_sample(call, 0, staged), Ok(value));
        assert_eq!(reply::boolean_from_infos(0, staged), Ok(value));
    }
}
