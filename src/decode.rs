//! The record decoder: one row of a source file, as its fields, to a typed
//! record, or the first column at fault.
use crate::numeric::{i32_of_text, i64_of_text, decimal_text, parse_i32, parse_i64, is_decimal_text};
use vstd::prelude::*;

verus! {

/// Why a row could not be decoded.
#[derive(Clone, Copy, Debug, PartialEq, Eq, Structural)]
pub enum DecodeReason {
    /// The row does not have the number of fields that its file declares.
    WrongFieldCount { expected: usize, found: usize },
    /// A required field is empty.
    MissingField,
    /// A numeric field does not hold a number of its type.
    MalformedNumber,
}

/// A row that failed to decode: its index in the stream, the column at
/// fault (0 for a wrong field count), and why.
#[derive(Clone, Copy, Debug, PartialEq, Eq, Structural)]
pub struct DecodeError {
    pub row: usize,
    pub column: usize,
    pub reason: DecodeReason,
}

/// What a row decodes to, given the record or the first fault in it.
pub open spec fn decode_outcome<R>(row: usize, d: Result<R, (usize, DecodeReason)>) -> Result<
    R,
    DecodeError,
> {
    match d {
        Ok(v) => Ok(v),
        Err((column, reason)) => Err(DecodeError { row, column, reason }),
    }
}

/// A dataset's row shape: how one row of its source file decodes.
pub trait Record: Sized {
    /// The record that a row of fields denotes, or its first faulty column.
    spec fn decoded(fields: Seq<String>) -> Result<Self, (usize, DecodeReason)>;

    fn decode(row: usize, fields: &Vec<String>) -> (r: Result<Self, DecodeError>)
        ensures
            r == decode_outcome(row, Self::decoded(fields@)),
    ;
}

/// The fault for a row that has `found` fields where `expected` are due.
pub open spec fn field_count_fault(expected: usize, found: nat) -> (usize, DecodeReason) {
    (0usize, DecodeReason::WrongFieldCount { expected, found: found as usize })
}

/// A required 32-bit integer field.
pub open spec fn i32_field(s: Seq<char>) -> Result<i32, DecodeReason> {
    if s.len() == 0 {
        Err(DecodeReason::MissingField)
    } else {
        match i32_of_text(s) {
            Some(v) => Ok(v),
            None => Err(DecodeReason::MalformedNumber),
        }
    }
}

/// A required 64-bit integer field.
pub open spec fn i64_field(s: Seq<char>) -> Result<i64, DecodeReason> {
    if s.len() == 0 {
        Err(DecodeReason::MissingField)
    } else {
        match i64_of_text(s) {
            Some(v) => Ok(v),
            None => Err(DecodeReason::MalformedNumber),
        }
    }
}

/// A 32-bit integer field that may be empty.
pub open spec fn optional_i32_field(s: Seq<char>) -> Result<Option<i32>, DecodeReason> {
    if s.len() == 0 {
        Ok(None)
    } else {
        match i32_of_text(s) {
            Some(v) => Ok(Some(v)),
            None => Err(DecodeReason::MalformedNumber),
        }
    }
}

/// A required decimal field, which is kept as its text.
pub open spec fn decimal_field(s: Seq<char>) -> Result<(), DecodeReason> {
    if s.len() == 0 {
        Err(DecodeReason::MissingField)
    } else if decimal_text(s) {
        Ok(())
    } else {
        Err(DecodeReason::MalformedNumber)
    }
}

/// A text field that may be absent: empty means absent.
pub open spec fn optional_text(s: String) -> Option<String> {
    if s@.len() == 0 {
        None
    } else {
        Some(s)
    }
}

/// The boolean that a flag field holds: exactly `true` or `1` is true, and
/// every other token (`false`, `0`, the empty text, `yes`, `TRUE `) is false.
pub open spec fn flag_value(s: Seq<char>) -> bool {
    s == "true"@ || s == "1"@
}

pub fn read_i32_field(s: &String) -> (r: Result<i32, DecodeReason>)
    ensures
        r == i32_field(s@),
{
    if s.as_str().unicode_len() == 0 {
        return Err(DecodeReason::MissingField);
    }
    match parse_i32(s.as_str()) {
        Some(v) => Ok(v),
        None => Err(DecodeReason::MalformedNumber),
    }
}

pub fn read_i64_field(s: &String) -> (r: Result<i64, DecodeReason>)
    ensures
        r == i64_field(s@),
{
    if s.as_str().unicode_len() == 0 {
        return Err(DecodeReason::MissingField);
    }
    match parse_i64(s.as_str()) {
        Some(v) => Ok(v),
        None => Err(DecodeReason::MalformedNumber),
    }
}

pub fn read_optional_i32_field(s: &String) -> (r: Result<Option<i32>, DecodeReason>)
    ensures
        r == optional_i32_field(s@),
{
    if s.as_str().unicode_len() == 0 {
        return Ok(None);
    }
    match parse_i32(s.as_str()) {
        Some(v) => Ok(Some(v)),
        None => Err(DecodeReason::MalformedNumber),
    }
}

/// Checks a decimal field and hands back its text.
pub fn read_decimal_field(s: &String) -> (r: Result<String, DecodeReason>)
    ensures
        match decimal_field(s@) {
            Ok(()) => r == Ok::<String, DecodeReason>(*s),
            Err(reason) => r == Err::<String, DecodeReason>(reason),
        },
{
    if s.as_str().unicode_len() == 0 {
        return Err(DecodeReason::MissingField);
    }
    if is_decimal_text(s.as_str()) {
        Ok(s.clone())
    } else {
        Err(DecodeReason::MalformedNumber)
    }
}

pub fn read_optional_text(s: &String) -> (r: Option<String>)
    ensures
        r == optional_text(*s),
{
    if s.as_str().unicode_len() == 0 {
        None
    } else {
        Some(s.clone())
    }
}

/// Reads a flag field leniently: see `flag_value`. No token is an error.
pub fn parse_bool_from_string(s: &str) -> (r: bool)
    ensures
        r == flag_value(s@),
{
    proof {
        reveal_strlit("true");
        reveal_strlit("1");
    }
    let n = s.unicode_len();
    if n == 1 {
        let r = s.get_char(0) == '1';
        assert(r ==> s@ =~= "1"@);
        r
    } else if n == 4 {
        let r = s.get_char(0) == 't' && s.get_char(1) == 'r' && s.get_char(2) == 'u'
            && s.get_char(3) == 'e';
        assert(r ==> s@ =~= "true"@);
        r
    } else {
        false
    }
}

} // verus!
