//! Options that a session is opened with.

use vstd::prelude::*;

verus! {

/// The largest number of option records that the engine takes when a session
/// is opened.
pub const MAX_OPTIONS: usize = 128;

/// One record of session options, as the engine reads it: two C integers that
/// it treats as flags.
#[derive(Debug, Clone, Copy, PartialEq, Eq, Structural)]
pub struct RTIOptions {
    pub enable_on_data_event: i32,
    pub one_based_sequence_indexing: i32,
}

/// The C integer that stands for a flag: one for set, zero for clear.
pub open spec fn flag_of(value: bool) -> i32 {
    if value {
        1i32
    } else {
        0i32
    }
}

/// The C integer that the engine is handed for a flag.
pub fn flag(value: bool) -> (c_value: i32)
    ensures
        c_value == flag_of(value),
{
    if value {
        1
    } else {
        0
    }
}

impl RTIOptions {
    pub fn new(enable_on_data_event: bool, one_based_sequence_indexing: bool) -> (options: Self)
        ensures
            options.enable_on_data_event == flag_of(enable_on_data_event),
            options.one_based_sequence_indexing == flag_of(one_based_sequence_indexing),
    {
        RTIOptions {
            enable_on_data_event: flag(enable_on_data_event),
            one_based_sequence_indexing: flag(one_based_sequence_indexing),
        }
    }
}

impl Default for RTIOptions {
    /// Both flags set.
    fn default() -> (options: Self)
        ensures
            options.enable_on_data_event == 1,
            options.one_based_sequence_indexing == 1,
    {
        RTIOptions { enable_on_data_event: 1, one_based_sequence_indexing: 1 }
    }
}

/// The record with both flags set.
pub open spec fn default_options() -> RTIOptions {
    RTIOptions { enable_on_data_event: 1, one_based_sequence_indexing: 1 }
}

/// The array of option records that the engine is handed: as many records as
/// it takes, [`MAX_OPTIONS`], which are the records given, in their order,
/// and the default record in every place behind them.
pub open spec fn padded_options(options: Seq<RTIOptions>) -> Seq<RTIOptions> {
    Seq::new(
        MAX_OPTIONS as nat,
        |i: int|
            if i < options.len() {
                options[i]
            } else {
                default_options()
            },
    )
}

/// Computes [`padded_options`].
pub fn padded(options: &[RTIOptions]) -> (array: Vec<RTIOptions>)
    ensures
        array@ == padded_options(options@),
{
    let mut array: Vec<RTIOptions> = Vec::new();
    let mut i: usize = 0;
    while i < MAX_OPTIONS
        invariant
            i <= MAX_OPTIONS,
            array@.len() == i,
            forall|k: int| 0 <= k < i ==> array@[k] == padded_options(options@)[k],
        decreases MAX_OPTIONS - i,
    {
        if i < options.len() {
            array.push(options[i]);
        } else {
            array.push(RTIOptions::default());
        }
        i = i + 1;
    }
    assert(array@ =~= padded_options(options@));
    array
}

} // verus!
