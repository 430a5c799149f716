//! Return codes of the engine and the error kinds of the access layer.

use vstd::prelude::*;

verus! {

/// Return code with which the engine reports success.
pub const RETCODE_OK: i32 = 0;

/// Return code with which the engine reports that a wait elapsed.
pub const RETCODE_TIMEOUT: i32 = 10;

/// Return code with which the engine reports that there is nothing to read.
pub const RETCODE_NO_DATA: i32 = 11;

/// What a return code of the engine other than success stands for.
#[derive(Debug, Clone, Copy, PartialEq, Eq, Structural)]
pub enum DDSError {
    /// The wait elapsed before anything happened.
    Timeout,
    /// There is nothing to read.
    NoData,
    /// Any other failure.
    Unknown,
}

impl DDSError {
    /// The return code that stands for each kind; `-1` for the kinds without
    /// a code of their own.
    pub open spec fn spec_code(self) -> i32 {
        match self {
            DDSError::Timeout => RETCODE_TIMEOUT,
            DDSError::NoData => RETCODE_NO_DATA,
            DDSError::Unknown => -1i32,
        }
    }

    /// The kind that a return code stands for, `None` for success.
    pub open spec fn spec_from_code(code: i32) -> Option<DDSError> {
        if code == RETCODE_OK {
            None
        } else if code == RETCODE_TIMEOUT {
            Some(DDSError::Timeout)
        } else if code == RETCODE_NO_DATA {
            Some(DDSError::NoData)
        } else {
            Some(DDSError::Unknown)
        }
    }

    #[verifier::when_used_as_spec(spec_code)]
    pub fn code(self) -> (code: i32)
        ensures
            code == self.spec_code(),
    {
        match self {
            DDSError::Timeout => RETCODE_TIMEOUT,
            DDSError::NoData => RETCODE_NO_DATA,
            DDSError::Unknown => -1,
        }
    }

    #[verifier::when_used_as_spec(spec_from_code)]
    pub fn from_code(code: i32) -> (kind: Option<DDSError>)
        ensures
            kind == Self::spec_from_code(code),
    {
        if code == RETCODE_OK {
            None
        } else if code == RETCODE_TIMEOUT {
            Some(DDSError::Timeout)
        } else if code == RETCODE_NO_DATA {
            Some(DDSError::NoData)
        } else {
            Some(DDSError::Unknown)
        }
    }

    /// Every kind is the kind of its own code.
    pub proof fn lemma_code_names_kind(kind: DDSError)
        ensures
            DDSError::from_code(kind.code()) == Some(kind),
    {
    }
}

/// Why an operation of the access layer failed.
#[derive(Debug, Clone, Copy, PartialEq, Eq, Structural)]
pub enum ConnectorError {
    /// The operation needs a live session and there is none: it was never
    /// opened, or it is already destroyed.
    NullPointer,
    /// The engine took the call and reported a failure.
    FfiError,
    /// The field is there and is no boolean.
    FieldNotBoolean,
    /// The field is there and is no number.
    FieldNotNumber,
    /// The field is there and is no string.
    FieldNotString,
    /// The member is there and is not one that reads as JSON.
    MemberNotJson,
    /// The sample has no such field.
    FieldNotFound,
    /// The batch has no sample at that index.
    SampleNotFound,
    /// The sample has no such member.
    MemberNotFound,
    /// A text cannot cross: to the engine because it holds a zero byte, or
    /// from the engine because it is not UTF-8 or not there.
    InvalidString,
    /// The configuration is not one that the engine opens, or it declares no
    /// entity of the name asked for.
    ConfigError,
}

impl ConnectorError {
    /// The line that describes each kind.
    pub open spec fn spec_message(self) -> Seq<char> {
        match self {
            ConnectorError::NullPointer => "Error: Null pointer"@,
            ConnectorError::FfiError => "Error: FFI Error"@,
            ConnectorError::FieldNotBoolean => "Error: Field Not Boolean"@,
            ConnectorError::FieldNotNumber => "Error: Field Not Number"@,
            ConnectorError::FieldNotString => "Error: Field Not String"@,
            ConnectorError::MemberNotJson => "Error: Member Not JSON"@,
            ConnectorError::FieldNotFound => "Error: Field Not Found"@,
            ConnectorError::SampleNotFound => "Error: Sample Not Found"@,
            ConnectorError::MemberNotFound => "Error: Member Not Found"@,
            ConnectorError::InvalidString => "Error: Invalid String"@,
            ConnectorError::ConfigError => "Error: Invalid Configuration"@,
        }
    }

    pub fn message(self) -> (line: &'static str)
        ensures
            line@ == self.spec_message(),
    {
        match self {
            ConnectorError::NullPointer => "Error: Null pointer",
            ConnectorError::FfiError => "Error: FFI Error",
            ConnectorError::FieldNotBoolean => "Error: Field Not Boolean",
            ConnectorError::FieldNotNumber => "Error: Field Not Number",
            ConnectorError::FieldNotString => "Error: Field Not String",
            ConnectorError::MemberNotJson => "Error: Member Not JSON",
            ConnectorError::FieldNotFound => "Error: Field Not Found",
            ConnectorError::SampleNotFound => "Error: Sample Not Found",
            ConnectorError::MemberNotFound => "Error: Member Not Found",
            ConnectorError::InvalidString => "Error: Invalid String",
            ConnectorError::ConfigError => "Error: Invalid Configuration",
        }
    }
}

} // verus!
