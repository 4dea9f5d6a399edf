//! Connection Type: the codes of list 5.22 of OpenRTB 2.5.

use vstd::prelude::*;
use serde_json::Value;
use crate::codec::Codec;
use crate::error::{Error, ErrorView};
use crate::json::Json;

verus! {

/// Connection Type (OpenRTB 2.5, list 5.22).
///
/// The following table lists the various options for the type of device connectivity.
#[derive(Clone, Copy, Debug, PartialEq, Eq, Structural)]
pub enum ConnectionType {
    /// Unknown
    Unknown,
    /// Ethernet
    Ethernet,
    /// WIFI
    WiFi,
    /// Cellular Network - Unknown Generation
    CellUnknown,
    /// Cellular Network - 2G
    Cell2G,
    /// Cellular Network - 3G
    Cell3G,
    /// Cellular Network - 4G
    Cell4G,
}

impl ConnectionType {
    /// The number that stands for this variant on the wire.
    pub open spec fn code(self) -> i32 {
        match self {
            ConnectionType::Unknown => 0,
            ConnectionType::Ethernet => 1,
            ConnectionType::WiFi => 2,
            ConnectionType::CellUnknown => 3,
            ConnectionType::Cell2G => 4,
            ConnectionType::Cell3G => 5,
            ConnectionType::Cell4G => 6,
        }
    }

    /// The variant that `code` stands for, or the error for a number outside the list.
    pub open spec fn of_code(code: i32) -> Result<ConnectionType, ErrorView> {
        if code == 0 {
            Ok(ConnectionType::Unknown)
        } else if code == 1 {
            Ok(ConnectionType::Ethernet)
        } else if code == 2 {
            Ok(ConnectionType::WiFi)
        } else if code == 3 {
            Ok(ConnectionType::CellUnknown)
        } else if code == 4 {
            Ok(ConnectionType::Cell2G)
        } else if code == 5 {
            Ok(ConnectionType::Cell3G)
        } else if code == 6 {
            Ok(ConnectionType::Cell4G)
        } else {
            Err(ErrorView::domain(code as i64, "one of: 0, 1, 2, 3, 4, 5, 6"@))
        }
    }

    /// The number that stands for this variant on the wire. It is read back as the same
    /// variant.
    pub fn serialize(&self) -> (code: i32)
        ensures
            code == self.code(),
            ConnectionType::of_code(code) == Ok::<ConnectionType, ErrorView>(*self),
    {
        match self {
            ConnectionType::Unknown => 0,
            ConnectionType::Ethernet => 1,
            ConnectionType::WiFi => 2,
            ConnectionType::CellUnknown => 3,
            ConnectionType::Cell2G => 4,
            ConnectionType::Cell3G => 5,
            ConnectionType::Cell4G => 6,
        }
    }

    /// The variant that `code` stands for. A number outside the list is an error that
    /// names it; a variant that is returned stands for `code`.
    pub fn deserialize(code: i32) -> (r: Result<ConnectionType, Error>)
        ensures
            match (r, ConnectionType::of_code(code)) {
                (Ok(x), Ok(m)) => x == m,
                (Err(e), Err(f)) => e@ == f,
                _ => false,
            },
            r matches Ok(x) ==> x.code() == code,
    {
        match code {
            0 => Ok(ConnectionType::Unknown),
            1 => Ok(ConnectionType::Ethernet),
            2 => Ok(ConnectionType::WiFi),
            3 => Ok(ConnectionType::CellUnknown),
            4 => Ok(ConnectionType::Cell2G),
            5 => Ok(ConnectionType::Cell3G),
            6 => Ok(ConnectionType::Cell4G),
            _ => Err(Error::domain(code as i64, "one of: 0, 1, 2, 3, 4, 5, 6")),
        }
    }
}

impl Codec for ConnectionType {
    type Model = ConnectionType;

    open spec fn model(&self) -> ConnectionType {
        *self
    }

    open spec fn valid(m: ConnectionType) -> bool {
        true
    }

    open spec fn current(m: ConnectionType) -> bool {
        true
    }

    open spec fn encoded(m: ConnectionType) -> Json {
        <i32 as Codec>::encoded(m.code())
    }

    open spec fn decoded(json: Json) -> Result<ConnectionType, ErrorView> {
        match <i32 as Codec>::decoded(json) {
            Ok(code) => ConnectionType::of_code(code),
            Err(e) => Err(e),
        }
    }

    fn to_value(&self) -> (value: Value) {
        self.serialize().to_value()
    }

    fn from_value(value: &Value) -> (r: Result<ConnectionType, Error>) {
        match <i32 as Codec>::from_value(value) {
            Ok(code) => ConnectionType::deserialize(code),
            Err(e) => Err(e),
        }
    }

    proof fn round_trip(m: ConnectionType) {
    }

    proof fn decoded_valid(json: Json) {
    }
}

} // verus!
