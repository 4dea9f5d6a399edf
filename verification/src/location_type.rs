//! Location Type: the codes of list 5.20 of OpenRTB 2.5.

use vstd::prelude::*;
use serde_json::Value;
use crate::codec::Codec;
use crate::error::{Error, ErrorView};
use crate::json::Json;

verus! {

/// Location Type (OpenRTB 2.5, list 5.20).
///
/// The following table lists the options to indicate how the geographic information was
/// determined.
#[derive(Clone, Copy, Debug, PartialEq, Eq, Structural)]
pub enum LocationType {
    /// GPS/Location Services
    GpsLocation,
    /// IP Address
    IpAddress,
    /// User provided (e.g., registration data)
    UserProvided,
}

impl LocationType {
    /// The number that stands for this variant on the wire.
    pub open spec fn code(self) -> i32 {
        match self {
            LocationType::GpsLocation => 1,
            LocationType::IpAddress => 2,
            LocationType::UserProvided => 3,
        }
    }

    /// The variant that `code` stands for, or the error for a number outside the list.
    pub open spec fn of_code(code: i32) -> Result<LocationType, ErrorView> {
        if code == 1 {
            Ok(LocationType::GpsLocation)
        } else if code == 2 {
            Ok(LocationType::IpAddress)
        } else if code == 3 {
            Ok(LocationType::UserProvided)
        } else {
            Err(ErrorView::domain(code as i64, "one of: 1, 2, 3"@))
        }
    }

    /// The number that stands for this variant on the wire. It is read back as the same
    /// variant.
    pub fn serialize(&self) -> (code: i32)
        ensures
            code == self.code(),
            LocationType::of_code(code) == Ok::<LocationType, ErrorView>(*self),
    {
        match self {
            LocationType::GpsLocation => 1,
            LocationType::IpAddress => 2,
            LocationType::UserProvided => 3,
        }
    }

    /// The variant that `code` stands for. A number outside the list is an error that
    /// names it; a variant that is returned stands for `code`.
    pub fn deserialize(code: i32) -> (r: Result<LocationType, Error>)
        ensures
            match (r, LocationType::of_code(code)) {
                (Ok(x), Ok(m)) => x == m,
                (Err(e), Err(f)) => e@ == f,
                _ => false,
            },
            r matches Ok(x) ==> x.code() == code,
    {
        match code {
            1 => Ok(LocationType::GpsLocation),
            2 => Ok(LocationType::IpAddress),
            3 => Ok(LocationType::UserProvided),
            _ => Err(Error::domain(code as i64, "one of: 1, 2, 3")),
        }
    }
}

impl Codec for LocationType {
    type Model = LocationType;

    open spec fn model(&self) -> LocationType {
        *self
    }

    open spec fn valid(m: LocationType) -> bool {
        true
    }

    open spec fn current(m: LocationType) -> bool {
        true
    }

    open spec fn encoded(m: LocationType) -> Json {
        <i32 as Codec>::encoded(m.code())
    }

    open spec fn decoded(json: Json) -> Result<LocationType, ErrorView> {
        match <i32 as Codec>::decoded(json) {
            Ok(code) => LocationType::of_code(code),
            Err(e) => Err(e),
        }
    }

    fn to_value(&self) -> (value: Value) {
        self.serialize().to_value()
    }

    fn from_value(value: &Value) -> (r: Result<LocationType, Error>) {
        match <i32 as Codec>::from_value(value) {
            Ok(code) => LocationType::deserialize(code),
            Err(e) => Err(e),
        }
    }

    proof fn round_trip(m: LocationType) {
    }

    proof fn decoded_valid(json: Json) {
    }
}

} // verus!
