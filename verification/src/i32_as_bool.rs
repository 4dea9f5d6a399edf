//! Flags: a boolean that is written as the integer 0 or 1.
//!
//! No other integer is read as a boolean: there is no notion of a number that counts as
//! true.

use vstd::prelude::*;
use serde_json::Value;
use crate::codec::Codec;
use crate::error::{Error, ErrorView};
use crate::json::Json;

verus! {

/// The integer that a flag is written as.
pub open spec fn encoded(flag: bool) -> i32 {
    if flag {
        1
    } else {
        0
    }
}

/// The flag that an integer is read as, or the error for an integer that is neither 0
/// nor 1.
pub open spec fn decoded(n: i32) -> Result<bool, ErrorView> {
    if n == 0 {
        Ok(false)
    } else if n == 1 {
        Ok(true)
    } else {
        Err(ErrorView::domain(n as i64, "0 or 1"@))
    }
}

/// The integer that a flag is written as: 1 for `true`, 0 for `false`. It is read back as
/// the same flag.
pub fn serialize(v: &bool) -> (n: i32)
    ensures
        n == encoded(*v),
        decoded(n) == Ok::<bool, ErrorView>(*v),
{
    if *v {
        1
    } else {
        0
    }
}

/// The flag that an integer is read as: `false` for 0, `true` for 1, and for every other
/// integer an error that names it.
pub fn deserialize(n: i32) -> (r: Result<bool, Error>)
    ensures
        match (r, decoded(n)) {
            (Ok(x), Ok(m)) => x == m,
            (Err(e), Err(f)) => e@ == f,
            _ => false,
        },
        r matches Ok(x) ==> encoded(x) == n,
{
    match n {
        0 => Ok(false),
        1 => Ok(true),
        _ => Err(Error::domain(n as i64, "0 or 1")),
    }
}

/// In a document, every boolean is such a flag.
impl Codec for bool {
    type Model = bool;

    open spec fn model(&self) -> bool {
        *self
    }

    open spec fn valid(m: bool) -> bool {
        true
    }

    open spec fn current(m: bool) -> bool {
        true
    }

    open spec fn encoded(m: bool) -> Json {
        <i32 as Codec>::encoded(self::encoded(m))
    }

    open spec fn decoded(json: Json) -> Result<bool, ErrorView> {
        match <i32 as Codec>::decoded(json) {
            Ok(n) => self::decoded(n),
            Err(e) => Err(e),
        }
    }

    fn to_value(&self) -> (value: Value) {
        serialize(self).to_value()
    }

    fn from_value(value: &Value) -> (r: Result<bool, Error>) {
        match <i32 as Codec>::from_value(value) {
            Ok(n) => deserialize(n),
            Err(e) => Err(e),
        }
    }

    proof fn round_trip(m: bool) {
    }

    proof fn decoded_valid(json: Json) {
    }
}

/// A JSON boolean is no flag: `true` and `false` are not read as 1 and 0, nor as anything
/// else.
pub proof fn boolean_is_no_flag(b: bool)
    ensures
        <bool as Codec>::decoded(Json::Bool(b)) == Err::<bool, ErrorView>(
            ErrorView::shape(Json::Bool(b), "an integer"@),
        ),
{
}

/// Where the value is no integer of 32 bits, the error of reading the integer is the
/// error of reading the flag.
pub proof fn no_integer_is_no_flag(json: Json)
    requires
        <i32 as Codec>::decoded(json) is Err,
    ensures
        <bool as Codec>::decoded(json) == Err::<bool, ErrorView>(
            <i32 as Codec>::decoded(json)->Err_0,
        ),
{
}

} // verus!
