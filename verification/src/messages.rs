//! The diagnostic lines that the operations on a counter hand back for logging.

use vstd::prelude::*;
use crate::decimal::{decimal, to_decimal};

verus! {

/// The line that reports the value after a step up.
pub open spec fn increased_line(value: int) -> Seq<char> {
    "Increased number to "@ + decimal(value)
}

/// The line that reports the value after a step down.
pub open spec fn decreased_line(value: int) -> Seq<char> {
    "Decreased number to "@ + decimal(value)
}

/// The line that follows every step, reminding the caller of the 8-bit range.
pub open spec fn overflow_warning() -> Seq<char> {
    "Make sure you don't overflow, my friend."@
}

/// The line that reports a reset.
pub open spec fn reset_line() -> Seq<char> {
    "Reset counter to zero"@
}

/// The message of a refused initialization.
pub open spec fn already_initialized_message() -> Seq<char> {
    "The contract is already initialized"@
}

/// Builds the line that reports `value` after a step up.
pub fn increased_message(value: i8) -> (line: String)
    ensures
        line@ == increased_line(value as int),
{
    let mut line: String = String::from_str("Increased number to ");
    let number: String = to_decimal(value);
    line.append(number.as_str());
    line
}

/// Builds the line that reports `value` after a step down.
pub fn decreased_message(value: i8) -> (line: String)
    ensures
        line@ == decreased_line(value as int),
{
    let mut line: String = String::from_str("Decreased number to ");
    let number: String = to_decimal(value);
    line.append(number.as_str());
    line
}

/// Builds the line that follows every step.
pub fn after_counter_change() -> (line: String)
    ensures
        line@ == overflow_warning(),
{
    String::from_str("Make sure you don't overflow, my friend.")
}

/// Builds the line that reports a reset.
pub fn reset_message() -> (line: String)
    ensures
        line@ == reset_line(),
{
    String::from_str("Reset counter to zero")
}

} // verus!
