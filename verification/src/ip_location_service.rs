//! IP Location Services: the codes of list 5.23 of OpenRTB 2.5.

use vstd::prelude::*;
use serde_json::Value;
use crate::codec::Codec;
use crate::error::{Error, ErrorView};
use crate::json::Json;

verus! {

/// IP Location Services (OpenRTB 2.5, list 5.23).
///
/// The following table lists the services and/or vendors used for resolving IP addresses to
/// geolocations.
#[derive(Clone, Copy, Debug, PartialEq, Eq, Structural)]
pub enum IpLocationService {
    /// ip2location
    Ip2Location,
    /// Neustar (Quova)
    Neustar,
    /// MaxMind
    MaxMind,
    /// NetAcuity (Digital Element)
    NetAcuity,
}

impl IpLocationService {
    /// The number that stands for this variant on the wire.
    pub open spec fn code(self) -> i32 {
        match self {
            IpLocationService::Ip2Location => 1,
            IpLocationService::Neustar => 2,
            IpLocationService::MaxMind => 3,
            IpLocationService::NetAcuity => 4,
        }
    }

    /// The variant that `code` stands for, or the error for a number outside the list.
    pub open spec fn of_code(code: i32) -> Result<IpLocationService, ErrorView> {
        if code == 1 {
            Ok(IpLocationService::Ip2Location)
        } else if code == 2 {
            Ok(IpLocationService::Neustar)
        } else if code == 3 {
            Ok(IpLocationService::MaxMind)
        } else if code == 4 {
            Ok(IpLocationService::NetAcuity)
        } else {
            Err(ErrorView::domain(code as i64, "one of: 1, 2, 3, 4"@))
        }
    }

    /// The number that stands for this variant on the wire. It is read back as the same
    /// variant.
    pub fn serialize(&self) -> (code: i32)
        ensures
            code == self.code(),
            IpLocationService::of_code(code) == Ok::<IpLocationService, ErrorView>(*self),
    {
        match self {
            IpLocationService::Ip2Location => 1,
            IpLocationService::Neustar => 2,
            IpLocationService::MaxMind => 3,
            IpLocationService::NetAcuity => 4,
        }
    }

    /// The variant that `code` stands for. A number outside the list is an error that
    /// names it; a variant that is returned stands for `code`.
    pub fn deserialize(code: i32) -> (r: Result<IpLocationService, Error>)
        ensures
            match (r, IpLocationService::of_code(code)) {
                (Ok(x), Ok(m)) => x == m,
                (Err(e), Err(f)) => e@ == f,
                _ => false,
            },
            r matches Ok(x) ==> x.code() == code,
    {
        match code {
            1 => Ok(IpLocationService::Ip2Location),
            2 => Ok(IpLocationService::Neustar),
            3 => Ok(IpLocationService::MaxMind),
            4 => Ok(IpLocationService::NetAcuity),
            _ => Err(Error::domain(code as i64, "one of: 1, 2, 3, 4")),
        }
    }
}

impl Codec for IpLocationService {
    type Model = IpLocationService;

    open spec fn model(&self) -> IpLocationService {
        *self
    }

    open spec fn valid(m: IpLocationService) -> bool {
        true
    }

    open spec fn current(m: IpLocationService) -> bool {
        true
    }

    open spec fn encoded(m: IpLocationService) -> Json {
        <i32 as Codec>::encoded(m.code())
    }

    open spec fn decoded(json: Json) -> Result<IpLocationService, ErrorView> {
        match <i32 as Codec>::decoded(json) {
            Ok(code) => IpLocationService::of_code(code),
            Err(e) => Err(e),
        }
    }

    fn to_value(&self) -> (value: Value) {
        self.serialize().to_value()
    }

    fn from_value(value: &Value) -> (r: Result<IpLocationService, Error>) {
        match <i32 as Codec>::from_value(value) {
            Ok(code) => IpLocationService::deserialize(code),
            Err(e) => Err(e),
        }
    }

    proof fn round_trip(m: IpLocationService) {
    }

    proof fn decoded_valid(json: Json) {
    }
}

} // verus!
