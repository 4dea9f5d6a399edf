//! Start Delay: the codes of list 5.12 of OpenRTB 2.5, and the delays in seconds that
//! share their place.

use vstd::prelude::*;
use serde_json::Value;
use crate::codec::Codec;
use crate::error::{Error, ErrorView};
use crate::json::Json;

verus! {

/// Start Delay (OpenRTB 2.5, list 5.12).
///
/// The following table lists the various options for the video or audio start delay. If the
/// start delay value is greater than 0, then the position is mid-roll and the value indicates
/// the start delay.
#[derive(Clone, Copy, Debug, PartialEq, Eq, Structural)]
pub enum StartDelay {
    /// Mid-Roll (value indicates start delay in second). The value is greater than 0.
    MidRoll(i32),
    /// Pre-Roll
    PreRoll,
    /// Generic Mid-Roll
    GenericMidRoll,
    /// Generic Post-Roll
    GenericPostRoll,
}

impl StartDelay {
    /// Whether the value keeps to its domain: the delay of a mid-roll is greater than 0.
    /// To encode any other value breaks the caller's side of the contract.
    pub open spec fn valid(self) -> bool {
        self matches StartDelay::MidRoll(v) ==> v > 0
    }

    /// The number that stands for this value on the wire.
    pub open spec fn code(self) -> i32 {
        match self {
            StartDelay::MidRoll(v) => v,
            StartDelay::PreRoll => 0,
            StartDelay::GenericMidRoll => -1i32,
            StartDelay::GenericPostRoll => -2i32,
        }
    }

    /// The value that `code` stands for: a delay for a number greater than 0, the three
    /// named positions for 0, -1 and -2, else an error.
    pub open spec fn of_code(code: i32) -> Result<StartDelay, ErrorView> {
        if code > 0 {
            Ok(StartDelay::MidRoll(code))
        } else if code == 0 {
            Ok(StartDelay::PreRoll)
        } else if code == -1 {
            Ok(StartDelay::GenericMidRoll)
        } else if code == -2 {
            Ok(StartDelay::GenericPostRoll)
        } else {
            Err(ErrorView::domain(code as i64, "0 or -1 or -2 or greater than 0"@))
        }
    }

    /// The number that stands for this value on the wire. A valid value is read back from
    /// it.
    pub fn serialize(&self) -> (code: i32)
        ensures
            code == self.code(),
            self.valid() ==> StartDelay::of_code(code) == Ok::<StartDelay, ErrorView>(*self),
    {
        match self {
            StartDelay::MidRoll(v) => *v,
            StartDelay::PreRoll => 0,
            StartDelay::GenericMidRoll => -1,
            StartDelay::GenericPostRoll => -2,
        }
    }

    /// The value that `code` stands for: a mid-roll after that many seconds for a number
    /// greater than 0, pre-roll for 0, generic mid-roll for -1, generic post-roll for -2,
    /// and for every other number an error that names it. A value that is returned is
    /// valid and stands for `code`.
    pub fn deserialize(code: i32) -> (r: Result<StartDelay, Error>)
        ensures
            match (r, StartDelay::of_code(code)) {
                (Ok(x), Ok(m)) => x == m,
                (Err(e), Err(f)) => e@ == f,
                _ => false,
            },
            r matches Ok(x) ==> x.valid() && x.code() == code,
    {
        if code > 0 {
            Ok(StartDelay::MidRoll(code))
        } else if code == 0 {
            Ok(StartDelay::PreRoll)
        } else if code == -1 {
            Ok(StartDelay::GenericMidRoll)
        } else if code == -2 {
            Ok(StartDelay::GenericPostRoll)
        } else {
            Err(Error::domain(code as i64, "0 or -1 or -2 or greater than 0"))
        }
    }
}

impl Codec for StartDelay {
    type Model = StartDelay;

    open spec fn model(&self) -> StartDelay {
        *self
    }

    open spec fn valid(m: StartDelay) -> bool {
        m.valid()
    }

    open spec fn current(m: StartDelay) -> bool {
        true
    }

    open spec fn encoded(m: StartDelay) -> Json {
        <i32 as Codec>::encoded(m.code())
    }

    open spec fn decoded(json: Json) -> Result<StartDelay, ErrorView> {
        match <i32 as Codec>::decoded(json) {
            Ok(code) => StartDelay::of_code(code),
            Err(e) => Err(e),
        }
    }

    fn to_value(&self) -> (value: Value) {
        self.serialize().to_value()
    }

    fn from_value(value: &Value) -> (r: Result<StartDelay, Error>) {
        match <i32 as Codec>::from_value(value) {
            Ok(code) => StartDelay::deserialize(code),
            Err(e) => Err(e),
        }
    }

    proof fn round_trip(m: StartDelay) {
    }

    proof fn decoded_valid(json: Json) {
    }
}

/// Where the value is no integer of 32 bits, the error of reading the integer is the
/// error of reading the start delay.
pub proof fn no_integer_is_refused(json: Json)
    requires
        <i32 as Codec>::decoded(json) is Err,
    ensures
        <StartDelay as Codec>::decoded(json) == Err::<StartDelay, ErrorView>(
            <i32 as Codec>::decoded(json)->Err_0,
        ),
{
}

} // verus!
