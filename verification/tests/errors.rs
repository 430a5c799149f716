use rticonnector::error::{RETCODE_NO_DATA, RETCODE_OK, RETCODE_TIMEOUT};
use rticonnector::{ConnectorError, DDSError};

#[test]
fn return_codes_have_their_values() {
    assert_eq!(RETCODE_OK, 0);
    assert_eq!(RETCODE_TIMEOUT, 10);
    assert_eq!(RETCODE_NO_DATA, 11);
}

#[test]
fn kinds_have_their_codes() {
    assert_eq!(DDSError::Timeout.code(), 10);
    assert_eq!(DDSError::NoData.code(), 11);
    assert_eq!(DDSError::Unknown.code(), -1);
}

#[test]
fn codes_name_their_kinds() {
    assert_eq!(DDSError::from_code(0), None);
    assert_eq!(DDSError::from_code(10), Some(DDSError::Timeout));
    assert_eq!(DDSError::from_code(11), Some(DDSError::NoData));
    assert_eq!(DDSError::from_code(-1), Some(DDSError::Unknown));
    assert_eq!(DDSError::from_code(1), Some(DDSError::Unknown));
    assert_eq!(DDSError::from_code(i32::MIN), Some(DDSError::Unknown));
    assert_eq!(DDSError::from_code(i32::MAX), Some(DDSError::Unknown));
}

#[test]
fn every_kind_is_the_kind_of_its_code() {
    for kind in [DDSError::Timeout, DDSError::NoData, DDSError::Unknown] {
        assert_eq!(DDSError::from_code(kind.code()), Some(kind));
    }
}

#[test]
fn errors_describe_themselves() {
    assert_eq!(ConnectorError::NullPointer.message(), "Error: Null pointer");
    assert_eq!(ConnectorError::FfiError.message(), "Error: FFI Error");
    assert_eq!(ConnectorError::FieldNotBoolean.message(), "Error: Field Not Boolean");
    assert_eq!(ConnectorError::FieldNotNumber.message(), "Error: Field Not Number");
    assert_eq!(ConnectorError::FieldNotString.message(), "Error: Field Not String");
    assert_eq!(ConnectorError::MemberNotJson.message(), "Error: Member Not JSON");
    assert_eq!(ConnectorError::FieldNotFound.message(), "Error: Field Not Found");
    assert_eq!(ConnectorError::SampleNotFound.message(), "Error: Sample Not Found");
    assert_eq!(ConnectorError::MemberNotFound.message(), "Error: Member Not Found");
    assert_eq!(ConnectorError::InvalidString.message(), "Error: Invalid String");
    assert_eq!(ConnectorError::ConfigError.message(), "Error: Invalid Configuration");
}
