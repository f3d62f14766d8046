//! Scalar values as the backend returns them.  Numbers come back in varying
//! "stringy-ness": sometimes as numbers, sometimes as decimal strings, and
//! boolean-ish values come in several shapes.

use vstd::prelude::*;
use vstd::string::StrSliceExecFns;
use vstd::string::StringExecFns;
use crate::text;

verus! {

/// A scalar handed back by the backend.
pub enum Value {
    Null,
    Bool(bool),
    Int(i64),
    Str(String),
}

/// A well-formed, possibly negated money string.
pub open spec fn signed_money_wf(s: Seq<char>) -> bool {
    if s.len() > 0 && s[0] == '-' {
        text::money_wf(s.subrange(1, s.len() as int))
    } else {
        text::money_wf(s)
    }
}

/// The amount in hundredths that a well-formed signed money string denotes.
pub open spec fn signed_money_cents(s: Seq<char>) -> int {
    if s.len() > 0 && s[0] == '-' {
        -text::money_cents(s.subrange(1, s.len() as int))
    } else {
        text::money_cents(s)
    }
}

/// Translate a number or numeric string into a number.
pub fn parse_id(value: &Value) -> (r: Result<i64, String>)
    ensures
        match *value {
            Value::Int(n) => r == Ok::<i64, String>(n),
            Value::Str(s) => {
                if text::int_str_wf(s@) && i64::MIN <= text::int_str_val(s@) <= i64::MAX {
                    r matches Ok(n) && n == text::int_str_val(s@)
                } else {
                    r is Err
                }
            },
            _ => r is Err,
        },
        r is Err ==> (r matches Err(e) && e@ == "Invalid numeric value"@),
{
    match value {
        Value::Int(n) => Ok(*n),
        Value::Str(s) => {
            match text::parse_int_str(s.as_str()) {
                Some(n) => Ok(n),
                None => Err(String::from_str("Invalid numeric value")),
            }
        },
        _ => Err(String::from_str("Invalid numeric value")),
    }
}

/// Translate a money amount — a number of whole currency units, or a decimal
/// string with an optional sign — into hundredths.
pub fn parse_money(value: &Value) -> (r: Result<i64, String>)
    ensures
        match *value {
            Value::Int(n) => {
                if i64::MIN <= n * 100 <= i64::MAX {
                    r == Ok::<i64, String>((n * 100) as i64)
                } else {
                    r is Err
                }
            },
            Value::Str(s) => {
                if signed_money_wf(s@) && -(i64::MAX as int) <= signed_money_cents(s@)
                    <= i64::MAX {
                    r matches Ok(c) && c == signed_money_cents(s@)
                } else {
                    r is Err
                }
            },
            _ => r is Err,
        },
        r is Err ==> (r matches Err(e) && e@ == "Invalid money value"@),
{
    match value {
        Value::Int(n) => {
            match n.checked_mul(100) {
                Some(c) => Ok(c),
                None => Err(String::from_str("Invalid money value")),
            }
        },
        Value::Str(s) => {
            let st = s.as_str();
            let n = st.unicode_len();
            if n > 0 && st.get_char(0) == '-' {
                let rest = st.substring_char(1, n);
                match text::parse_money_str(rest) {
                    Some(c) => Ok(-c),
                    None => Err(String::from_str("Invalid money value")),
                }
            } else {
                match text::parse_money_str(st) {
                    Some(c) => Ok(c),
                    None => Err(String::from_str("Invalid money value")),
                }
            }
        },
        _ => Err(String::from_str("Invalid money value")),
    }
}

/// Translate the backend's variety of true-ish values into a bool.
pub fn parse_bool(value: &Value) -> (r: bool)
    ensures
        match *value {
            Value::Int(n) => r == (n != 0),
            Value::Str(s) => r == (s@.len() > 0 && (s@[0] == 't' || s@[0] == 'T')),
            Value::Bool(b) => r == b,
            Value::Null => r == false,
        },
{
    match value {
        Value::Int(n) => *n != 0,
        Value::Str(s) => {
            let st = s.as_str();
            if st.unicode_len() == 0 {
                false
            } else {
                let c = st.get_char(0);
                c == 't' || c == 'T'
            }
        },
        Value::Bool(b) => *b,
        Value::Null => false,
    }
}

} // verus!
