use vstd::prelude::*;
use crate::errors::{AssemblyError, ErrorKind};
use crate::text::owned;

verus! {

pub open spec fn unsigned_byte_msg() -> Seq<char> {
    "Value must be an unsigned 8 bit value, (max: 255, min: 0)"@
}

pub open spec fn signed_byte_msg() -> Seq<char> {
    "Value must be a signed 8 bit value, (max: 127, min: -128)"@
}

pub open spec fn unsigned_word_msg() -> Seq<char> {
    "Value must be an unsigned 16 bit value, (max: 65535, min: 0)"@
}

pub open spec fn signed_word_msg() -> Seq<char> {
    "Value must be a signed 16 bit value, (max: 32767, min: -32768)"@
}

pub open spec fn bit_id_msg() -> Seq<char> {
    "Value must be a bit ID value between 0 and 7 inclusive"@
}

/// A range check: success exactly when `lo <= val <= hi`, otherwise the
/// structural error with `msg`.
pub open spec fn range_checked(r: Result<(), AssemblyError>, val: i32, lo: int, hi: int, line: usize, msg: Seq<char>) -> bool {
    &&& (r is Ok <==> lo <= val <= hi)
    &&& (r matches Err(e) ==> e.is(ErrorKind::Structure, Some(line), msg))
}

/// Checks that a value fits an unsigned byte.
pub fn check_unsigned_byte(val: i32, line_num: usize) -> (r: Result<(), AssemblyError>)
    ensures
        range_checked(r, val, 0, 255, line_num, unsigned_byte_msg()),
{
    if val > 255 || val < 0 {
        Err(AssemblyError::StructuralError {
            line: line_num,
            reason: owned("Value must be an unsigned 8 bit value, (max: 255, min: 0)"),
        })
    } else {
        Ok(())
    }
}

/// Checks that a value fits a signed byte.
pub fn check_signed_byte(val: i32, line_num: usize) -> (r: Result<(), AssemblyError>)
    ensures
        range_checked(r, val, -128, 127, line_num, signed_byte_msg()),
{
    if val > 127 || val < -128 {
        Err(AssemblyError::StructuralError {
            line: line_num,
            reason: owned("Value must be a signed 8 bit value, (max: 127, min: -128)"),
        })
    } else {
        Ok(())
    }
}

/// Checks that a value fits an unsigned word.
pub fn check_unsigned_word(val: i32, line_num: usize) -> (r: Result<(), AssemblyError>)
    ensures
        range_checked(r, val, 0, 65535, line_num, unsigned_word_msg()),
{
    if val > 65535 || val < 0 {
        Err(AssemblyError::StructuralError {
            line: line_num,
            reason: owned("Value must be an unsigned 16 bit value, (max: 65535, min: 0)"),
        })
    } else {
        Ok(())
    }
}

/// Checks that a value fits a signed word.
pub fn check_signed_word(val: i32, line_num: usize) -> (r: Result<(), AssemblyError>)
    ensures
        range_checked(r, val, -32768, 32767, line_num, signed_word_msg()),
{
    if val > 32767 || val < -32768 {
        Err(AssemblyError::StructuralError {
            line: line_num,
            reason: owned("Value must be a signed 16 bit value, (max: 32767, min: -32768)"),
        })
    } else {
        Ok(())
    }
}

/// Checks that a value names one of the eight bits of a byte.
pub fn check_bit_id(val: i32, line_num: usize) -> (r: Result<(), AssemblyError>)
    ensures
        range_checked(r, val, 0, 7, line_num, bit_id_msg()),
{
    if val > 7 || val < 0 {
        Err(AssemblyError::StructuralError {
            line: line_num,
            reason: owned("Value must be a bit ID value between 0 and 7 inclusive"),
        })
    } else {
        Ok(())
    }
}

} // verus!
