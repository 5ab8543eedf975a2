use vstd::prelude::*;
use vstd::string::*;

use crate::text::{lemma_trim_cuts_only_white_space, parse_i32, spec_is_whitespace, spec_parse_i32, spec_trim, trim};

verus! {

// Simple battery and charging status provider. The attributes live in
// /sys/class/power_supply/bq27441/; each function here takes what reading
// the attribute's file gave: `Err` with the description of the error when
// the file could not be opened, or `Ok` with its contents (empty when
// nothing could be read).

/// A `Result` of strings, seen as sequences of characters.
pub open spec fn string_result(r: Result<String, String>) -> Result<Seq<char>, Seq<char>> {
    match r {
        Ok(s) => Ok(s@),
        Err(e) => Err(e@),
    }
}

/// A `Result` with a string error, the error seen as a sequence of characters.
pub open spec fn int_result(r: Result<i32, String>) -> Result<i32, Seq<char>> {
    match r {
        Ok(v) => Ok(v),
        Err(e) => Err(e@),
    }
}

/// The attribute's value: its contents without surrounding white space.
pub open spec fn spec_read_attribute(contents: Result<String, String>) -> Result<Seq<char>, Seq<char>> {
    match contents {
        Err(e) => Err("Unable to open file: "@ + e@),
        Ok(d) => if d@.len() == 0 {
            Err("Unable to read file"@)
        } else {
            Ok(spec_trim(d@))
        },
    }
}

/// The attribute's value read as an `i32`, or `parse_error` if it is none.
pub open spec fn spec_int_attribute(contents: Result<String, String>, parse_error: Seq<char>) -> Result<i32, Seq<char>> {
    match spec_read_attribute(contents) {
        Err(e) => Err(e),
        Ok(t) => match spec_parse_i32(t) {
            Some(v) => Ok(v),
            None => Err(parse_error),
        },
    }
}

/// The value of an attribute from what reading its file gave.
pub fn read_attribute(contents: Result<String, String>) -> (r: Result<String, String>)
    ensures
        string_result(r) == spec_read_attribute(contents),
{
    match contents {
        Err(e) => {
            let msg = String::from_str("Unable to open file: ");
            Err(msg.concat(e.as_str()))
        },
        Ok(data) => {
            if data.as_str().is_empty() {
                Err(String::from_str("Unable to read file"))
            } else {
                Ok(trim(data.as_str()))
            }
        },
    }
}

/// An attribute read as an `i32`; `parse_error` describes a value that is none.
fn int_attribute(contents: Result<String, String>, parse_error: &str) -> (r: Result<i32, String>)
    ensures
        int_result(r) == spec_int_attribute(contents, parse_error@),
{
    match read_attribute(contents) {
        Err(e) => Err(e),
        Ok(value) => match parse_i32(value.as_str()) {
            Some(v) => Ok(v),
            None => Err(String::from_str(parse_error)),
        },
    }
}

/// $ cat /sys/class/power_supply/bq27441/capacity
/// 97
pub fn percentage(contents: Result<String, String>) -> (r: Result<i32, String>)
    ensures
        int_result(r) == spec_int_attribute(
            contents,
            "Unable to parse the contents of 'capacity' during a battery query"@,
        ),
{
    int_attribute(contents, "Unable to parse the contents of 'capacity' during a battery query")
}

/// $ cat /sys/class/power_supply/bq27441/capacity_level
/// Normal
pub fn human_readable_capacity_level(contents: Result<String, String>) -> (r: Result<String, String>)
    ensures
        string_result(r) == spec_read_attribute(contents),
{
    read_attribute(contents)
}

/// $ cat /sys/class/power_supply/bq27441/charge_full
/// 1635000
pub fn charge_full(contents: Result<String, String>) -> (r: Result<i32, String>)
    ensures
        int_result(r) == spec_int_attribute(
            contents,
            "Unable to parse the contents of 'charge_full' during a battery query"@,
        ),
{
    int_attribute(contents, "Unable to parse the contents of 'charge_full' during a battery query")
}

/// $ cat /sys/class/power_supply/bq27441/charge_full_design
/// 1340000
pub fn charge_full_design(contents: Result<String, String>) -> (r: Result<i32, String>)
    ensures
        int_result(r) == spec_int_attribute(
            contents,
            "Unable to parse the contents of 'charge_full_design' during a battery query"@,
        ),
{
    int_attribute(
        contents,
        "Unable to parse the contents of 'charge_full_design' during a battery query",
    )
}

/// $ cat /sys/class/power_supply/bq27441/charge_now
/// 1528000
pub fn charge(contents: Result<String, String>) -> (r: Result<i32, String>)
    ensures
        int_result(r) == spec_int_attribute(
            contents,
            "Unable to parse the contents of 'charge_now' during a battery query"@,
        ),
{
    int_attribute(contents, "Unable to parse the contents of 'charge_now' during a battery query")
}

/// $ cat /sys/class/power_supply/bq27441/status
/// Discharging
pub fn human_readable_charging_status(contents: Result<String, String>) -> (r: Result<String, String>)
    ensures
        string_result(r) == spec_read_attribute(contents),
{
    read_attribute(contents)
}

/// $ cat /sys/class/power_supply/bq27441/temp
/// 201
pub fn temperature(contents: Result<String, String>) -> (r: Result<i32, String>)
    ensures
        int_result(r) == spec_int_attribute(
            contents,
            "Unable to parse the contents of 'current_now' during a battery query"@,
        ),
{
    int_attribute(contents, "Unable to parse the contents of 'current_now' during a battery query")
}

/// $ cat /sys/class/power_supply/bq27441/voltage_now
/// 4164000
pub fn voltage(contents: Result<String, String>) -> (r: Result<i32, String>)
    ensures
        int_result(r) == spec_int_attribute(
            contents,
            "Unable to parse the contents of 'voltage_now' during a battery query"@,
        ),
{
    int_attribute(contents, "Unable to parse the contents of 'voltage_now' during a battery query")
}

/// $ cat /sys/class/power_supply/bq27441/current_now
/// -132000
pub fn current(contents: Result<String, String>) -> (r: Result<i32, String>)
    ensures
        int_result(r) == spec_int_attribute(
            contents,
            "Unable to parse the contents of 'current_now' during a battery query"@,
        ),
{
    int_attribute(contents, "Unable to parse the contents of 'current_now' during a battery query")
}

/// An attribute's value is its file's contents with the white space around
/// it cut off and nothing else: a contiguous part of the contents, with only
/// white space before and after it, neither starting nor ending with white
/// space. A file that cannot be opened gives the open error, prefixed; an
/// empty one gives "Unable to read file".
pub proof fn lemma_attribute_value(contents: Result<String, String>)
    ensures
        contents matches Err(e) ==> spec_read_attribute(contents) == Err::<Seq<char>, Seq<char>>(
            "Unable to open file: "@ + e@,
        ),
        contents matches Ok(d) ==> (d@.len() == 0 <==> spec_read_attribute(contents) is Err),
        contents matches Ok(d) ==> (spec_read_attribute(contents) matches Ok(t) ==> exists|i: int, j: int|
            0 <= i <= j <= d@.len() && t == d@.subrange(i, j) && (forall|k: int|
                0 <= k < i ==> spec_is_whitespace(#[trigger] d@[k])) && (forall|k: int|
                j <= k < d@.len() ==> spec_is_whitespace(#[trigger] d@[k])) && (i < j
                ==> !spec_is_whitespace(d@[i]) && !spec_is_whitespace(d@[j - 1]))),
{
    if let Ok(d) = contents {
        lemma_trim_cuts_only_white_space(d@);
    }
}

} // verus!
