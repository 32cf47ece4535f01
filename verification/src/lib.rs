//! Status-code translation for MCC DAQ HAT data-acquisition boards.
//!
//! Every operation of the vendor hardware-driver library reports an integer
//! status code.  This crate holds the one piece of logic that is independent
//! of the hardware: classifying a code as success or failure, and rendering
//! a human-readable diagnostic for it.  Both functions are total and pure —
//! any integer, known or not, yields a classification and a non-empty
//! message — and their contracts pin the exact result.

#![allow(non_upper_case_globals)]

use vstd::prelude::*;

pub mod decimal;

verus! {

use crate::decimal::{spec_int_decimal, i32_decimal, lemma_int_decimal_nonempty};

/// The status code the driver library reports for a successful operation.
pub const ResultCode_RESULT_SUCCESS: i32 = 0;

/// A parameter passed to the operation was incorrect.
pub const ResultCode_RESULT_BAD_PARAMETER: i32 = -1;

/// The device is busy.
pub const ResultCode_RESULT_BUSY: i32 = -2;

/// There was a timeout accessing a resource.
pub const ResultCode_RESULT_TIMEOUT: i32 = -3;

/// There was a timeout while obtaining a resource lock.
pub const ResultCode_RESULT_LOCK_TIMEOUT: i32 = -4;

/// The device at the specified address is not the correct type.
pub const ResultCode_RESULT_INVALID_DEVICE: i32 = -5;

/// A needed resource was not available.
pub const ResultCode_RESULT_RESOURCE_UNAVAIL: i32 = -6;

/// Could not communicate with the device.
pub const ResultCode_RESULT_COMMS_FAILURE: i32 = -7;

/// Some other error occurred.
pub const ResultCode_RESULT_UNDEFINED: i32 = -10;

/// The numeric identifier of the MCC 118 analog-input board.
pub const HatIDs_HAT_ID_MCC_118: u32 = 322;

/// The most boards a single system can carry.
pub const MAX_NUMBER_HATS: u32 = 8;

/// Result type for DAQ HAT operations: success, or the failing status code.
pub type DaqResult<T> = Result<T, i32>;

/// Whether a status code is in the fixed table of known codes.
pub open spec fn known_code(code: int) -> bool {
    code == 0 || (-7 <= code && code <= -1) || code == -10
}

/// The diagnostic message for a status code: a fixed sentence for each
/// known code, and "Unknown error code: " followed by the decimal numeral
/// for any other integer.
pub open spec fn spec_error_message(code: int) -> Seq<char> {
    if code == 0 {
        "Success, no errors"@
    } else if code == -1 {
        "A parameter passed to the function was incorrect"@
    } else if code == -2 {
        "The device is busy"@
    } else if code == -3 {
        "There was a timeout accessing a resource"@
    } else if code == -4 {
        "There was a timeout while obtaining a resource lock"@
    } else if code == -5 {
        "The device at the specified address is not the correct type"@
    } else if code == -6 {
        "A needed resource was not available"@
    } else if code == -7 {
        "Could not communicate with the device"@
    } else if code == -10 {
        "Some other error occurred"@
    } else {
        "Unknown error code: "@ + spec_int_decimal(code)
    }
}

/// Convert a raw status code to a `Result`: `Ok` exactly on the success
/// sentinel, and `Err` carrying the original code on every other value.
pub fn check_result(result: i32) -> (r: DaqResult<()>)
    ensures
        r is Ok <==> result == ResultCode_RESULT_SUCCESS,
        r is Err ==> r->Err_0 == result,
{
    if result == ResultCode_RESULT_SUCCESS {
        Ok(())
    } else {
        Err(result)
    }
}

/// Get a human-readable error message for a result code.
///
/// Total over all integers: every code, known or not, yields a non-empty
/// message, and the same code always yields the same message.
pub fn error_message(result: i32) -> (msg: String)
    ensures
        msg@ == spec_error_message(result as int),
        msg@.len() > 0,
{
    proof {
        reveal_strlit("Success, no errors");
        reveal_strlit("A parameter passed to the function was incorrect");
        reveal_strlit("The device is busy");
        reveal_strlit("There was a timeout accessing a resource");
        reveal_strlit("There was a timeout while obtaining a resource lock");
        reveal_strlit("The device at the specified address is not the correct type");
        reveal_strlit("A needed resource was not available");
        reveal_strlit("Could not communicate with the device");
        reveal_strlit("Some other error occurred");
        reveal_strlit("Unknown error code: ");
    }
    match result {
        0 => "Success, no errors".to_owned(),
        -1 => "A parameter passed to the function was incorrect".to_owned(),
        -2 => "The device is busy".to_owned(),
        -3 => "There was a timeout accessing a resource".to_owned(),
        -4 => "There was a timeout while obtaining a resource lock".to_owned(),
        -5 => "The device at the specified address is not the correct type".to_owned(),
        -6 => "A needed resource was not available".to_owned(),
        -7 => "Could not communicate with the device".to_owned(),
        -10 => "Some other error occurred".to_owned(),
        _ => {
            let mut msg = "Unknown error code: ".to_owned();
            msg.append(i32_decimal(result).as_str());
            msg
        },
    }
}

/// Law: every code outside the known table is described by the fixed prefix
/// "Unknown error code: " followed by the exact decimal numeral of the code.
pub proof fn lemma_unknown_code_message(code: int)
    requires
        !known_code(code),
    ensures
        spec_error_message(code) == "Unknown error code: "@ + spec_int_decimal(code),
{
}

/// Law: the diagnostic message is a function of the code alone, so two
/// descriptions of the same code are identical.
pub proof fn lemma_error_message_deterministic(code: int, first: Seq<char>, second: Seq<char>)
    requires
        first == spec_error_message(code),
        second == spec_error_message(code),
    ensures
        first == second,
{
}

/// Law: the diagnostic message is never empty, for any integer code.
pub proof fn lemma_error_message_nonempty(code: int)
    ensures
        spec_error_message(code).len() > 0,
{
    reveal_strlit("Success, no errors");
    reveal_strlit("A parameter passed to the function was incorrect");
    reveal_strlit("The device is busy");
    reveal_strlit("There was a timeout accessing a resource");
    reveal_strlit("There was a timeout while obtaining a resource lock");
    reveal_strlit("The device at the specified address is not the correct type");
    reveal_strlit("A needed resource was not available");
    reveal_strlit("Could not communicate with the device");
    reveal_strlit("Some other error occurred");
    reveal_strlit("Unknown error code: ");
    if !known_code(code) {
        lemma_int_decimal_nonempty(code);
    }
}

} // verus!
