//! Device Type: the codes of list 5.21 of OpenRTB 2.5.

use vstd::prelude::*;
use serde_json::Value;
use crate::codec::Codec;
use crate::error::{Error, ErrorView};
use crate::json::Json;

verus! {

/// Device Type (OpenRTB 2.5, list 5.21).
///
/// The following table lists the type of device from which the impression originated.
///
/// It is recommended that any bidder adding support for 2.2 treat a value of 1 as an acceptable
/// alias of 4 & 5.
///
/// This OpenRTB table has values derived from the Inventory Quality Guidelines (IQG).
/// Practitioners should keep in sync with updates to the IQG values.
#[derive(Clone, Copy, Debug, PartialEq, Eq, Structural)]
pub enum DeviceType {
    /// Mobile/Tablet
    ///
    /// Deprecated: kept so that documents that hold it are still read.
    Mobile,
    /// Personal Computer
    PersonalComputer,
    /// Connected TV
    ConnectedTv,
    /// Phone
    Phone,
    /// Tablet
    Tablet,
    /// Connected Device
    ConnectedDevice,
    /// Set Top Box
    SetTopBox,
}

impl DeviceType {
    /// The number that stands for this variant on the wire.
    pub open spec fn code(self) -> i32 {
        match self {
            DeviceType::Mobile => 1,
            DeviceType::PersonalComputer => 2,
            DeviceType::ConnectedTv => 3,
            DeviceType::Phone => 4,
            DeviceType::Tablet => 5,
            DeviceType::ConnectedDevice => 6,
            DeviceType::SetTopBox => 7,
        }
    }

    /// The variant that `code` stands for, or the error for a number outside the list.
    pub open spec fn of_code(code: i32) -> Result<DeviceType, ErrorView> {
        if code == 1 {
            Ok(DeviceType::Mobile)
        } else if code == 2 {
            Ok(DeviceType::PersonalComputer)
        } else if code == 3 {
            Ok(DeviceType::ConnectedTv)
        } else if code == 4 {
            Ok(DeviceType::Phone)
        } else if code == 5 {
            Ok(DeviceType::Tablet)
        } else if code == 6 {
            Ok(DeviceType::ConnectedDevice)
        } else if code == 7 {
            Ok(DeviceType::SetTopBox)
        } else {
            Err(ErrorView::domain(code as i64, "one of: 1, 2, 3, 4, 5, 6, 7"@))
        }
    }

    /// The number that stands for this variant on the wire. It is read back as the same
    /// variant.
    pub fn serialize(&self) -> (code: i32)
        ensures
            code == self.code(),
            DeviceType::of_code(code) == Ok::<DeviceType, ErrorView>(*self),
    {
        match self {
            DeviceType::Mobile => 1,
            DeviceType::PersonalComputer => 2,
            DeviceType::ConnectedTv => 3,
            DeviceType::Phone => 4,
            DeviceType::Tablet => 5,
            DeviceType::ConnectedDevice => 6,
            DeviceType::SetTopBox => 7,
        }
    }

    /// The variant that `code` stands for. A number outside the list is an error that
    /// names it; a variant that is returned stands for `code`.
    pub fn deserialize(code: i32) -> (r: Result<DeviceType, Error>)
        ensures
            match (r, DeviceType::of_code(code)) {
                (Ok(x), Ok(m)) => x == m,
                (Err(e), Err(f)) => e@ == f,
                _ => false,
            },
            r matches Ok(x) ==> x.code() == code,
    {
        match code {
            1 => Ok(DeviceType::Mobile),
            2 => Ok(DeviceType::PersonalComputer),
            3 => Ok(DeviceType::ConnectedTv),
            4 => Ok(DeviceType::Phone),
            5 => Ok(DeviceType::Tablet),
            6 => Ok(DeviceType::ConnectedDevice),
            7 => Ok(DeviceType::SetTopBox),
            _ => Err(Error::domain(code as i64, "one of: 1, 2, 3, 4, 5, 6, 7")),
        }
    }
}

impl Codec for DeviceType {
    type Model = DeviceType;

    open spec fn model(&self) -> DeviceType {
        *self
    }

    open spec fn valid(m: DeviceType) -> bool {
        true
    }

    open spec fn current(m: DeviceType) -> bool {
        true
    }

    open spec fn encoded(m: DeviceType) -> Json {
        <i32 as Codec>::encoded(m.code())
    }

    open spec fn decoded(json: Json) -> Result<DeviceType, ErrorView> {
        match <i32 as Codec>::decoded(json) {
            Ok(code) => DeviceType::of_code(code),
            Err(e) => Err(e),
        }
    }

    fn to_value(&self) -> (value: Value) {
        self.serialize().to_value()
    }

    fn from_value(value: &Value) -> (r: Result<DeviceType, Error>) {
        match <i32 as Codec>::from_value(value) {
            Ok(code) => DeviceType::deserialize(code),
            Err(e) => Err(e),
        }
    }

    proof fn round_trip(m: DeviceType) {
    }

    proof fn decoded_valid(json: Json) {
    }
}

} // verus!
