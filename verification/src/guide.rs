//! What the Guide and the gamer-services dispatcher decide on their own:
//! how a message box's answer reads, how a runtime flag reads, and the
//! counts a request carries.

use vstd::prelude::*;

use crate::error::CnaError;

verus! {

/// The button a message box answered: `None` when it was dismissed
/// without a choice.
pub fn message_box_choice(has_choice: u8, index: i32) -> (r: Option<i32>)
    ensures
        has_choice == 0 ==> r is None,
        has_choice != 0 ==> r == Some(index),
{
    if has_choice != 0 {
        Some(index)
    } else {
        None
    }
}

/// A runtime boolean: anything but zero is true.
pub fn native_flag(value: u8) -> (r: bool)
    ensures
        r == (value != 0),
{
    value != 0
}

/// A runtime boolean from a boolean.
pub fn flag_byte(value: bool) -> (r: u8)
    ensures
        r == (if value { 1u8 } else { 0u8 }),
{
    if value {
        1
    } else {
        0
    }
}

/// The element count of an array a request hands the runtime.
pub fn array_count(length: usize) -> (r: Result<u64, CnaError>)
    ensures
        r == Ok::<u64, CnaError>(length as u64),
{
    Ok(length as u64)
}

} // verus!
