//! The longest extension of an ad beyond its maximum duration: none, unlimited, or a number
//! of seconds.

use vstd::prelude::*;
use serde_json::Value;
use crate::codec::Codec;
use crate::error::{Error, ErrorView};
use crate::json::Json;

verus! {

/// Maximum extended ad duration if extension is allowed. If blank or 0, extension is not
/// allowed. If -1, extension is allowed, and there is no time limit imposed. If greater than
/// 0, then the value represents the number of seconds of extended play supported beyond the
/// maxduration value.
#[derive(Clone, Copy, Debug, PartialEq, Eq, Structural)]
pub enum MaxExtendedAdDuration {
    NoLimit,
    NotAllowed,
    /// That many seconds. The number is greater than 0.
    Specific(i32),
}

impl MaxExtendedAdDuration {
    /// Whether the value keeps to its domain: a specific number of seconds is greater
    /// than 0. To encode any other value breaks the caller's side of the contract.
    pub open spec fn valid(self) -> bool {
        self matches MaxExtendedAdDuration::Specific(v) ==> v > 0
    }

    /// The number that stands for this value on the wire.
    pub open spec fn code(self) -> i32 {
        match self {
            MaxExtendedAdDuration::NoLimit => -1i32,
            MaxExtendedAdDuration::NotAllowed => 0,
            MaxExtendedAdDuration::Specific(v) => v,
        }
    }

    /// The value that `code` stands for: the two named cases for -1 and 0, a number of
    /// seconds for a number greater than 0, else an error.
    pub open spec fn of_code(code: i32) -> Result<MaxExtendedAdDuration, ErrorView> {
        if code == -1 {
            Ok(MaxExtendedAdDuration::NoLimit)
        } else if code == 0 {
            Ok(MaxExtendedAdDuration::NotAllowed)
        } else if code > 0 {
            Ok(MaxExtendedAdDuration::Specific(code))
        } else {
            Err(ErrorView::domain(code as i64, "-1 or 0 or greater than 0"@))
        }
    }

    /// Whether this is the default, no extension allowed.
    pub fn is_default(&self) -> (r: bool)
        ensures
            r == (*self == MaxExtendedAdDuration::NotAllowed),
    {
        match self {
            MaxExtendedAdDuration::NotAllowed => true,
            _ => false,
        }
    }

    /// The number that stands for this value on the wire. A valid value is read back from
    /// it.
    pub fn serialize(&self) -> (code: i32)
        ensures
            code == self.code(),
            self.valid() ==> MaxExtendedAdDuration::of_code(code) == Ok::<
                MaxExtendedAdDuration,
                ErrorView,
            >(*self),
    {
        match self {
            MaxExtendedAdDuration::NoLimit => -1,
            MaxExtendedAdDuration::NotAllowed => 0,
            MaxExtendedAdDuration::Specific(v) => *v,
        }
    }

    /// The value that `code` stands for: no limit for -1, no extension for 0, that many
    /// seconds for a number greater than 0, and for every other number an error that
    /// names it. A value that is returned is valid and stands for `code`.
    pub fn deserialize(code: i32) -> (r: Result<MaxExtendedAdDuration, Error>)
        ensures
            match (r, MaxExtendedAdDuration::of_code(code)) {
                (Ok(x), Ok(m)) => x == m,
                (Err(e), Err(f)) => e@ == f,
                _ => false,
            },
            r matches Ok(x) ==> x.valid() && x.code() == code,
    {
        if code == -1 {
            Ok(MaxExtendedAdDuration::NoLimit)
        } else if code == 0 {
            Ok(MaxExtendedAdDuration::NotAllowed)
        } else if code > 0 {
            Ok(MaxExtendedAdDuration::Specific(code))
        } else {
            Err(Error::domain(code as i64, "-1 or 0 or greater than 0"))
        }
    }
}

impl Default for MaxExtendedAdDuration {
    /// No extension allowed.
    fn default() -> (r: MaxExtendedAdDuration)
        ensures
            r == MaxExtendedAdDuration::NotAllowed,
    {
        MaxExtendedAdDuration::NotAllowed
    }
}

impl Codec for MaxExtendedAdDuration {
    type Model = MaxExtendedAdDuration;

    open spec fn model(&self) -> MaxExtendedAdDuration {
        *self
    }

    open spec fn valid(m: MaxExtendedAdDuration) -> bool {
        m.valid()
    }

    open spec fn current(m: MaxExtendedAdDuration) -> bool {
        true
    }

    open spec fn encoded(m: MaxExtendedAdDuration) -> Json {
        <i32 as Codec>::encoded(m.code())
    }

    open spec fn decoded(json: Json) -> Result<MaxExtendedAdDuration, ErrorView> {
        match <i32 as Codec>::decoded(json) {
            Ok(code) => MaxExtendedAdDuration::of_code(code),
            Err(e) => Err(e),
        }
    }

    fn to_value(&self) -> (value: Value) {
        self.serialize().to_value()
    }

    fn from_value(value: &Value) -> (r: Result<MaxExtendedAdDuration, Error>) {
        match <i32 as Codec>::from_value(value) {
            Ok(code) => MaxExtendedAdDuration::deserialize(code),
            Err(e) => Err(e),
        }
    }

    proof fn round_trip(m: MaxExtendedAdDuration) {
    }

    proof fn decoded_valid(json: Json) {
    }
}

/// Where the value is no integer of 32 bits, the error of reading the integer is the
/// error of reading the duration.
pub proof fn no_integer_is_refused(json: Json)
    requires
        <i32 as Codec>::decoded(json) is Err,
    ensures
        <MaxExtendedAdDuration as Codec>::decoded(json) == Err::<MaxExtendedAdDuration, ErrorView>(
            <i32 as Codec>::decoded(json)->Err_0,
        ),
{
}

} // verus!
