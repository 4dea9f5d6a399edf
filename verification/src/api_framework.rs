//! API Frameworks: the codes of list 5.6 of OpenRTB 2.5.

use vstd::prelude::*;
use serde_json::Value;
use crate::codec::Codec;
use crate::error::{Error, ErrorView};
use crate::json::Json;

verus! {

/// API Frameworks (OpenRTB 2.5, list 5.6).
///
/// The following table is a list of API frameworks supported by the publisher.
#[derive(Clone, Copy, Debug, PartialEq, Eq, Structural)]
pub enum ApiFramework {
    /// VPAID 1.0
    Vpaid1,
    /// VPAID 2.0
    Vpaid2,
    /// MRAID-1
    Mraid1,
    /// ORMMA
    Ormma,
    /// MRAID-2
    Mraid2,
    /// MRAID-3
    Mraid3,
}

impl ApiFramework {
    /// The number that stands for this variant on the wire.
    pub open spec fn code(self) -> i32 {
        match self {
            ApiFramework::Vpaid1 => 1,
            ApiFramework::Vpaid2 => 2,
            ApiFramework::Mraid1 => 3,
            ApiFramework::Ormma => 4,
            ApiFramework::Mraid2 => 5,
            ApiFramework::Mraid3 => 6,
        }
    }

    /// The variant that `code` stands for, or the error for a number outside the list.
    pub open spec fn of_code(code: i32) -> Result<ApiFramework, ErrorView> {
        if code == 1 {
            Ok(ApiFramework::Vpaid1)
        } else if code == 2 {
            Ok(ApiFramework::Vpaid2)
        } else if code == 3 {
            Ok(ApiFramework::Mraid1)
        } else if code == 4 {
            Ok(ApiFramework::Ormma)
        } else if code == 5 {
            Ok(ApiFramework::Mraid2)
        } else if code == 6 {
            Ok(ApiFramework::Mraid3)
        } else {
            Err(ErrorView::domain(code as i64, "one of: 1, 2, 3, 4, 5, 6"@))
        }
    }

    /// The number that stands for this variant on the wire. It is read back as the same
    /// variant.
    pub fn serialize(&self) -> (code: i32)
        ensures
            code == self.code(),
            ApiFramework::of_code(code) == Ok::<ApiFramework, ErrorView>(*self),
    {
        match self {
            ApiFramework::Vpaid1 => 1,
            ApiFramework::Vpaid2 => 2,
            ApiFramework::Mraid1 => 3,
            ApiFramework::Ormma => 4,
            ApiFramework::Mraid2 => 5,
            ApiFramework::Mraid3 => 6,
        }
    }

    /// The variant that `code` stands for. A number outside the list is an error that
    /// names it; a variant that is returned stands for `code`.
    pub fn deserialize(code: i32) -> (r: Result<ApiFramework, Error>)
        ensures
            match (r, ApiFramework::of_code(code)) {
                (Ok(x), Ok(m)) => x == m,
                (Err(e), Err(f)) => e@ == f,
                _ => false,
            },
            r matches Ok(x) ==> x.code() == code,
    {
        match code {
            1 => Ok(ApiFramework::Vpaid1),
            2 => Ok(ApiFramework::Vpaid2),
            3 => Ok(ApiFramework::Mraid1),
            4 => Ok(ApiFramework::Ormma),
            5 => Ok(ApiFramework::Mraid2),
            6 => Ok(ApiFramework::Mraid3),
            _ => Err(Error::domain(code as i64, "one of: 1, 2, 3, 4, 5, 6")),
        }
    }
}

impl Codec for ApiFramework {
    type Model = ApiFramework;

    open spec fn model(&self) -> ApiFramework {
        *self
    }

    open spec fn valid(m: ApiFramework) -> bool {
        true
    }

    open spec fn current(m: ApiFramework) -> bool {
        true
    }

    open spec fn encoded(m: ApiFramework) -> Json {
        <i32 as Codec>::encoded(m.code())
    }

    open spec fn decoded(json: Json) -> Result<ApiFramework, ErrorView> {
        match <i32 as Codec>::decoded(json) {
            Ok(code) => ApiFramework::of_code(code),
            Err(e) => Err(e),
        }
    }

    fn to_value(&self) -> (value: Value) {
        self.serialize().to_value()
    }

    fn from_value(value: &Value) -> (r: Result<ApiFramework, Error>) {
        match <i32 as Codec>::from_value(value) {
            Ok(code) => ApiFramework::deserialize(code),
            Err(e) => Err(e),
        }
    }

    proof fn round_trip(m: ApiFramework) {
    }

    proof fn decoded_valid(json: Json) {
    }
}

} // verus!
