//! The calls that the engine is asked to perform, as plain values.

use vstd::prelude::*;
use crate::options::{RTIOptions, MAX_OPTIONS};
use crate::text::{c_text, is_c_text};

verus! {

/// One call into the engine, with the arguments that it takes.
///
/// Sessions, readers and writers of the engine are named by their addresses.
/// A number field crosses as the bits of its double, and a timeout counts
/// milliseconds. [`EngineCall::performable`] says what the engine asks of the
/// arguments.
#[allow(inconsistent_fields)]
#[derive(Debug, Clone, Copy, PartialEq, Eq)]
pub enum EngineCall<'a> {
    /// Opens a session with the option records given. The engine is handed
    /// the array that [`crate::options::padded`] makes of them. It answers
    /// with the session's address, zero where it opened none.
    New { config_name: &'a str, config_file: &'a str, options: &'a [RTIOptions] },
    /// Destroys a session.
    Delete { connector: usize },
    /// Counts the samples held for an entity. Answer: return code and count.
    GetSampleCount { connector: usize, entity_name: &'a str },
    /// Reads a boolean of a sample's meta-data. Answer: return code and flag.
    GetBooleanFromInfos { connector: usize, entity_name: &'a str, index: i32, field_name: &'a str },
    /// Replaces the instance that a writer stages. Answer: return code.
    SetJsonInstance { connector: usize, entity_name: &'a str, json: &'a str },
    /// Stages a boolean field. Answer: return code.
    SetBooleanIntoSamples { connector: usize, entity_name: &'a str, field_name: &'a str, value: i32 },
    /// Stages a number field, given by the bits of the double. Answer: return
    /// code.
    SetNumberIntoSamples { connector: usize, entity_name: &'a str, field_name: &'a str, value: u64 },
    /// Stages a string field. Answer: return code.
    SetStringIntoSamples {
        connector: usize,
        entity_name: &'a str,
        field_name: &'a str,
        value: &'a str,
    },
    /// Reads meta-data of a sample as JSON. Answer: return code and text, if
    /// any.
    GetJsonFromInfos { connector: usize, entity_name: &'a str, index: i32, field_name: &'a str },
    /// Reads a whole sample as JSON. Answer: return code and text, if any.
    GetJsonSample { connector: usize, entity_name: &'a str, index: i32 },
    /// Reads one member of a sample as JSON. Answer: return code and text, if
    /// any.
    GetJsonMember { connector: usize, entity_name: &'a str, index: i32, member_name: &'a str },
    /// Drops the batch of a reader, or the staged instance of a writer.
    /// Answer: return code.
    Clear { connector: usize, entity_name: &'a str },
    /// Fetches what a reader has received and leaves it with the engine.
    /// Answer: return code.
    Read { connector: usize, entity_name: &'a str },
    /// Fetches what a reader has received and removes it from the engine.
    /// Answer: return code.
    Take { connector: usize, entity_name: &'a str },
    /// Sends the staged instance of a writer. Answer: return code.
    Write { connector: usize, entity_name: &'a str, params_json: &'a str },
    /// Reads a number field. Answer: return code and the bits of the double.
    GetNumberFromSample { connector: usize, entity_name: &'a str, index: i32, field_name: &'a str },
    /// Reads a boolean field. Answer: return code and flag.
    GetBooleanFromSample {
        connector: usize,
        entity_name: &'a str,
        index: i32,
        field_name: &'a str,
    },
    /// Reads a string field. Answer: return code and text, if any.
    GetStringFromSample { connector: usize, entity_name: &'a str, index: i32, field_name: &'a str },
    /// Resets one member of the staged instance. Answer: return code.
    ClearMember { connector: usize, entity_name: &'a str, member_name: &'a str },
    /// Resolves a reader by name. Answer: its address, zero where there is
    /// none of that name.
    GetDatareader { connector: usize, entity_name: &'a str },
    /// Resolves a writer by name. Answer: its address, zero where there is
    /// none of that name.
    GetDatawriter { connector: usize, entity_name: &'a str },
    /// Finds a sample in the engine's memory. Answer: its address, zero where
    /// there is none.
    GetNativeSample { connector: usize, entity_name: &'a str, index: i32 },
    /// Blocks until data arrives or the timeout elapses. Answer: return code.
    WaitForDataOnReader { handle: usize, timeout: i32 },
    /// Asks for the text of the last failure. Answer: text, if any.
    GetLastErrorMessage,
    /// Sets the limit of objects per thread for the whole process. Answer:
    /// return code.
    SetMaxObjectsPerThread { value: i32 },
    /// Blocks until the publications matched with a reader change or the
    /// timeout elapses. Answer: return code and change of the count.
    WaitForMatchedPublication { reader: usize, timeout: i32 },
    /// Lists the publications matched with a reader as JSON. Answer: return
    /// code and text, if any.
    GetMatchedPublications { reader: usize },
    /// Blocks until the samples written are acknowledged or the timeout
    /// elapses. Answer: return code.
    WaitForAcknowledgments { writer: usize, timeout: i32 },
    /// Blocks until the subscriptions matched with a writer change or the
    /// timeout elapses. Answer: return code and change of the count.
    WaitForMatchedSubscription { writer: usize, timeout: i32 },
    /// Lists the subscriptions matched with a writer as JSON. Answer: return
    /// code and text, if any.
    GetMatchedSubscriptions { writer: usize },
}

impl<'a> EngineCall<'a> {
    /// Whether the engine can be handed the call: every address in it names
    /// something, every text is a C string, every index counts from zero, and
    /// the option records are no more than the engine takes. The operations
    /// of this crate yield no other calls.
    pub open spec fn performable(&self) -> bool {
        match *self {
            EngineCall::New { config_name, config_file, options } => is_c_text(config_name@)
                && is_c_text(config_file@) && options@.len() <= MAX_OPTIONS,
            EngineCall::Delete { connector } => connector != 0,
            EngineCall::GetSampleCount { connector, entity_name } => connector != 0 && is_c_text(
                entity_name@,
            ),
            EngineCall::GetBooleanFromInfos { connector, entity_name, index, field_name } => connector
                != 0 && is_c_text(entity_name@) && index >= 0 && is_c_text(field_name@),
            EngineCall::SetJsonInstance { connector, entity_name, json } => connector != 0
                && is_c_text(entity_name@) && is_c_text(json@),
            EngineCall::SetBooleanIntoSamples { connector, entity_name, field_name, value } => connector
                != 0 && is_c_text(entity_name@) && is_c_text(field_name@),
            EngineCall::SetNumberIntoSamples { connector, entity_name, field_name, value } => connector
                != 0 && is_c_text(entity_name@) && is_c_text(field_name@),
            EngineCall::SetStringIntoSamples { connector, entity_name, field_name, value } => connector
                != 0 && is_c_text(entity_name@) && is_c_text(field_name@) && is_c_text(value@),
            EngineCall::GetJsonFromInfos { connector, entity_name, index, field_name } => connector
                != 0 && is_c_text(entity_name@) && index >= 0 && is_c_text(field_name@),
            EngineCall::GetJsonSample { connector, entity_name, index } => connector != 0
                && is_c_text(entity_name@) && index >= 0,
            EngineCall::GetJsonMember { connector, entity_name, index, member_name } => connector != 0
                && is_c_text(entity_name@) && index >= 0 && is_c_text(member_name@),
            EngineCall::Clear { connector, entity_name } => connector != 0 && is_c_text(
                entity_name@,
            ),
            EngineCall::Read { connector, entity_name } => connector != 0 && is_c_text(
                entity_name@,
            ),
            EngineCall::Take { connector, entity_name } => connector != 0 && is_c_text(
                entity_name@,
            ),
            EngineCall::Write { connector, entity_name, params_json } => connector != 0
                && is_c_text(entity_name@) && is_c_text(params_json@),
            EngineCall::GetNumberFromSample { connector, entity_name, index, field_name } => connector
                != 0 && is_c_text(entity_name@) && index >= 0 && is_c_text(field_name@),
            EngineCall::GetBooleanFromSample { connector, entity_name, index, field_name } => connector
                != 0 && is_c_text(entity_name@) && index >= 0 && is_c_text(field_name@),
            EngineCall::GetStringFromSample { connector, entity_name, index, field_name } => connector
                != 0 && is_c_text(entity_name@) && index >= 0 && is_c_text(field_name@),
            EngineCall::ClearMember { connector, entity_name, member_name } => connector != 0
                && is_c_text(entity_name@) && is_c_text(member_name@),
            EngineCall::GetDatareader { connector, entity_name } => connector != 0 && is_c_text(
                entity_name@,
            ),
            EngineCall::GetDatawriter { connector, entity_name } => connector != 0 && is_c_text(
                entity_name@,
            ),
            EngineCall::GetNativeSample { connector, entity_name, index } => connector != 0
                && is_c_text(entity_name@) && index >= 0,
            EngineCall::WaitForDataOnReader { handle, timeout } => handle != 0,
            EngineCall::GetLastErrorMessage => true,
            EngineCall::SetMaxObjectsPerThread { value } => value >= 0,
            EngineCall::WaitForMatchedPublication { reader, timeout } => reader != 0,
            EngineCall::GetMatchedPublications { reader } => reader != 0,
            EngineCall::WaitForAcknowledgments { writer, timeout } => writer != 0,
            EngineCall::WaitForMatchedSubscription { writer, timeout } => writer != 0,
            EngineCall::GetMatchedSubscriptions { writer } => writer != 0,
        }
    }

    /// Decides [`EngineCall::performable`].
    pub fn is_performable(&self) -> (performable: bool)
        ensures
            performable == self.performable(),
    {
        match *self {
            EngineCall::New { config_name, config_file, options } => c_text(config_name)
                && c_text(config_file) && options.len() <= MAX_OPTIONS,
            EngineCall::Delete { connector } => connector != 0,
            EngineCall::GetSampleCount { connector, entity_name }
            | EngineCall::Clear { connector, entity_name }
            | EngineCall::Read { connector, entity_name }
            | EngineCall::Take { connector, entity_name }
            | EngineCall::GetDatareader { connector, entity_name }
            | EngineCall::GetDatawriter { connector, entity_name } => connector != 0 && c_text(
                entity_name,
            ),
            EngineCall::GetBooleanFromInfos { connector, entity_name, index, field_name }
            | EngineCall::GetJsonFromInfos { connector, entity_name, index, field_name }
            | EngineCall::GetNumberFromSample { connector, entity_name, index, field_name }
            | EngineCall::GetBooleanFromSample { connector, entity_name, index, field_name }
            | EngineCall::GetStringFromSample { connector, entity_name, index, field_name } => connector
                != 0 && c_text(entity_name) && index >= 0 && c_text(field_name),
            EngineCall::GetJsonMember { connector, entity_name, index, member_name } => connector != 0
                && c_text(entity_name) && index >= 0 && c_text(member_name),
            EngineCall::GetJsonSample { connector, entity_name, index }
            | EngineCall::GetNativeSample { connector, entity_name, index } => connector != 0
                && c_text(entity_name) && index >= 0,
            EngineCall::SetJsonInstance { connector, entity_name, json } => connector != 0
                && c_text(entity_name) && c_text(json),
            EngineCall::Write { connector, entity_name, params_json } => connector != 0 && c_text(
                entity_name,
            ) && c_text(params_json),
            EngineCall::SetBooleanIntoSamples { connector, entity_name, field_name, value: _ } => connector
                != 0 && c_text(entity_name) && c_text(field_name),
            EngineCall::SetNumberIntoSamples { connector, entity_name, field_name, value: _ } => connector
                != 0 && c_text(entity_name) && c_text(field_name),
            EngineCall::SetStringIntoSamples { connector, entity_name, field_name, value } => connector
                != 0 && c_text(entity_name) && c_text(field_name) && c_text(value),
            EngineCall::ClearMember { connector, entity_name, member_name } => connector != 0
                && c_text(entity_name) && c_text(member_name),
            EngineCall::WaitForDataOnReader { handle, timeout: _ } => handle != 0,
            EngineCall::GetLastErrorMessage => true,
            EngineCall::SetMaxObjectsPerThread { value } => value >= 0,
            EngineCall::WaitForMatchedPublication { reader, timeout: _ } => reader != 0,
            EngineCall::GetMatchedPublications { reader } => reader != 0,
            EngineCall::WaitForAcknowledgments { writer, timeout: _ } => writer != 0,
            EngineCall::WaitForMatchedSubscription { writer, timeout: _ } => writer != 0,
            EngineCall::GetMatchedSubscriptions { writer } => writer != 0,
        }
    }
}

/// The timeout that the engine is handed for a wait of `millis` milliseconds:
/// the same count, and the longest wait that a C integer holds where the count
/// is beyond it. The engine never waits longer than was asked.
pub open spec fn timeout_of(millis: u128) -> i32 {
    if millis <= i32::MAX as u128 {
        millis as i32
    } else {
        i32::MAX
    }
}

/// Computes [`timeout_of`].
pub fn c_timeout(millis: u128) -> (timeout: i32)
    ensures
        timeout == timeout_of(millis),
{
    if millis <= i32::MAX as u128 {
        millis as i32
    } else {
        i32::MAX
    }
}

/// The index that the engine is handed for position `index` of a batch, if a
/// C integer holds it.
pub open spec fn index_of(index: usize) -> Option<i32> {
    if index <= i32::MAX as usize {
        Some(index as i32)
    } else {
        None
    }
}

/// Computes [`index_of`].
pub fn c_index(index: usize) -> (position: Option<i32>)
    ensures
        position == index_of(index),
{
    if index <= i32::MAX as usize {
        Some(index as i32)
    } else {
        None
    }
}

/// The whole number that a double stands for, given by its bits, if it
/// stands for one that a `u64` holds.
///
/// The bits of a double are a sign, eleven bits of exponent and fifty-two of
/// fraction. Zero of either sign is the whole number zero. Any other double
/// is `(2^52 + fraction) * 2^(exponent - 1075)`, and not a number or beyond
/// every number where the exponent is 2047. It is a whole number that a `u64`
/// holds where it is not negative, the exponent is from 1023 to 1086, and
/// the bits of the fraction that stand for less than one are all clear.
pub open spec fn whole_of(bits: u64) -> Option<u64> {
    let exponent = (bits >> 52) & 0x7ff;
    let fraction = bits & 0xf_ffff_ffff_ffff;
    let mantissa = fraction | 0x10_0000_0000_0000;
    if exponent == 0 && fraction == 0 {
        Some(0u64)
    } else if bits >> 63 != 0 || exponent < 1023 || exponent > 1086 {
        None
    } else if exponent >= 1075 {
        Some(mantissa << (exponent - 1075) as u64)
    } else if mantissa & (((1u64 << (1075 - exponent) as u64) - 1) as u64) != 0 {
        None
    } else {
        Some(mantissa >> (1075 - exponent) as u64)
    }
}

/// The count that the engine gave as a double, if it is a count: a whole
/// number, not negative, that a `usize` holds.
pub open spec fn count_of(bits: u64) -> Option<usize> {
    match whole_of(bits) {
        Some(whole) => if whole <= usize::MAX {
            Some(whole as usize)
        } else {
            None
        },
        None => None,
    }
}

/// Computes [`count_of`].
pub fn count(bits: u64) -> (r: Option<usize>)
    ensures
        r == count_of(bits),
{
    let exponent: u64 = (bits >> 52) & 0x7ff;
    let fraction: u64 = bits & 0xf_ffff_ffff_ffff;
    let mantissa: u64 = fraction | 0x10_0000_0000_0000;
    let whole: Option<u64> = if exponent == 0 && fraction == 0 {
        Some(0)
    } else if bits >> 63 != 0 || exponent < 1023 || exponent > 1086 {
        None
    } else if exponent >= 1075 {
        Some(mantissa << (exponent - 1075))
    } else {
        let below: u64 = 1075 - exponent;
        assert(1u64 << below >= 1) by (bit_vector)
            requires
                1 <= below <= 52,
        ;
        if mantissa & ((1u64 << below) - 1) != 0 {
            None
        } else {
            Some(mantissa >> below)
        }
    };
    match whole {
        Some(whole) => if whole <= usize::MAX as u64 {
            Some(whole as usize)
        } else {
            None
        },
        None => None,
    }
}

} // verus!
