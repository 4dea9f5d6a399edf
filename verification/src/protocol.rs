//! Protocols: the codes of list 5.8 of OpenRTB 2.5.

use vstd::prelude::*;
use serde_json::Value;
use crate::codec::Codec;
use crate::error::{Error, ErrorView};
use crate::json::Json;

verus! {

/// Protocols (OpenRTB 2.5, list 5.8).
///
/// The following table lists the options for the various bid response protocols that could be
/// supported by an exchange.
#[derive(Clone, Copy, Debug, PartialEq, Eq, Structural)]
pub enum Protocol {
    /// VAST 1.0
    Vast1,
    /// VAST 2.0
    Vast2,
    /// VAST 3.0
    Vast3,
    /// VAST 1.0 Wrapper
    Vast1Wrapper,
    /// VAST 2.0 Wrapper
    Vast2Wrapper,
    /// VAST 3.0 Wrapper
    Vast3Wrapper,
    /// VAST 4.0
    Vast4,
    /// VAST 4.0 Wrapper
    Vast4Wrapper,
    /// DAAST 1.0
    Daast1,
    /// DAAST 1.0 Wrapper
    Daast1Wrapper,
}

impl Protocol {
    /// The number that stands for this variant on the wire.
    pub open spec fn code(self) -> i32 {
        match self {
            Protocol::Vast1 => 1,
            Protocol::Vast2 => 2,
            Protocol::Vast3 => 3,
            Protocol::Vast1Wrapper => 4,
            Protocol::Vast2Wrapper => 5,
            Protocol::Vast3Wrapper => 6,
            Protocol::Vast4 => 7,
            Protocol::Vast4Wrapper => 8,
            Protocol::Daast1 => 9,
            Protocol::Daast1Wrapper => 10,
        }
    }

    /// The variant that `code` stands for, or the error for a number outside the list.
    pub open spec fn of_code(code: i32) -> Result<Protocol, ErrorView> {
        if code == 1 {
            Ok(Protocol::Vast1)
        } else if code == 2 {
            Ok(Protocol::Vast2)
        } else if code == 3 {
            Ok(Protocol::Vast3)
        } else if code == 4 {
            Ok(Protocol::Vast1Wrapper)
        } else if code == 5 {
            Ok(Protocol::Vast2Wrapper)
        } else if code == 6 {
            Ok(Protocol::Vast3Wrapper)
        } else if code == 7 {
            Ok(Protocol::Vast4)
        } else if code == 8 {
            Ok(Protocol::Vast4Wrapper)
        } else if code == 9 {
            Ok(Protocol::Daast1)
        } else if code == 10 {
            Ok(Protocol::Daast1Wrapper)
        } else {
            Err(ErrorView::domain(code as i64, "one of: 1, 2, 3, 4, 5, 6, 7, 8, 9, 10"@))
        }
    }

    /// The number that stands for this variant on the wire. It is read back as the same
    /// variant.
    pub fn serialize(&self) -> (code: i32)
        ensures
            code == self.code(),
            Protocol::of_code(code) == Ok::<Protocol, ErrorView>(*self),
    {
        match self {
            Protocol::Vast1 => 1,
            Protocol::Vast2 => 2,
            Protocol::Vast3 => 3,
            Protocol::Vast1Wrapper => 4,
            Protocol::Vast2Wrapper => 5,
            Protocol::Vast3Wrapper => 6,
            Protocol::Vast4 => 7,
            Protocol::Vast4Wrapper => 8,
            Protocol::Daast1 => 9,
            Protocol::Daast1Wrapper => 10,
        }
    }

    /// The variant that `code` stands for. A number outside the list is an error that
    /// names it; a variant that is returned stands for `code`.
    pub fn deserialize(code: i32) -> (r: Result<Protocol, Error>)
        ensures
            match (r, Protocol::of_code(code)) {
                (Ok(x), Ok(m)) => x == m,
                (Err(e), Err(f)) => e@ == f,
                _ => false,
            },
            r matches Ok(x) ==> x.code() == code,
    {
        match code {
            1 => Ok(Protocol::Vast1),
            2 => Ok(Protocol::Vast2),
            3 => Ok(Protocol::Vast3),
            4 => Ok(Protocol::Vast1Wrapper),
            5 => Ok(Protocol::Vast2Wrapper),
            6 => Ok(Protocol::Vast3Wrapper),
            7 => Ok(Protocol::Vast4),
            8 => Ok(Protocol::Vast4Wrapper),
            9 => Ok(Protocol::Daast1),
            10 => Ok(Protocol::Daast1Wrapper),
            _ => Err(Error::domain(code as i64, "one of: 1, 2, 3, 4, 5, 6, 7, 8, 9, 10")),
        }
    }
}

impl Codec for Protocol {
    type Model = Protocol;

    open spec fn model(&self) -> Protocol {
        *self
    }

    open spec fn valid(m: Protocol) -> bool {
        true
    }

    open spec fn current(m: Protocol) -> bool {
        true
    }

    open spec fn encoded(m: Protocol) -> Json {
        <i32 as Codec>::encoded(m.code())
    }

    open spec fn decoded(json: Json) -> Result<Protocol, ErrorView> {
        match <i32 as Codec>::decoded(json) {
            Ok(code) => Protocol::of_code(code),
            Err(e) => Err(e),
        }
    }

    fn to_value(&self) -> (value: Value) {
        self.serialize().to_value()
    }

    fn from_value(value: &Value) -> (r: Result<Protocol, Error>) {
        match <i32 as Codec>::from_value(value) {
            Ok(code) => Protocol::deserialize(code),
            Err(e) => Err(e),
        }
    }

    proof fn round_trip(m: Protocol) {
    }

    proof fn decoded_valid(json: Json) {
    }
}

} // verus!
