//! Ad Position: the codes of list 5.4 of OpenRTB 2.5.

use vstd::prelude::*;
use serde_json::Value;
use crate::codec::Codec;
use crate::error::{Error, ErrorView};
use crate::json::Json;

verus! {

/// Ad Position (OpenRTB 2.5, list 5.4).
///
/// The following table specifies the position of the ad as a relative measure of visibility or
/// prominence. This OpenRTB table has values derived from the Inventory Quality Guidelines
/// (IQG). Practitioners should keep in sync with updates to the IQG values as published on
/// IAB.com. Values "4" - "7" apply to apps per the mobile addendum to IQG version 2.1.
#[derive(Clone, Copy, Debug, PartialEq, Eq, Structural)]
pub enum AdPosition {
    /// Unknown
    Unknown,
    /// Above the Fold
    AboveTheFold,
    /// DEPRECATED - May or may not be initially visible depending on screen size/resolution.
    ///
    /// Deprecated: kept so that documents that hold it are still read.
    LikelyBelowTheFold,
    /// Below the Fold
    BelowTheFold,
    /// Header
    Header,
    /// Footer
    Footer,
    /// Sidebar
    Sidebar,
    /// Full Screen
    FullScreen,
}

impl AdPosition {
    /// The number that stands for this variant on the wire.
    pub open spec fn code(self) -> i32 {
        match self {
            AdPosition::Unknown => 0,
            AdPosition::AboveTheFold => 1,
            AdPosition::LikelyBelowTheFold => 2,
            AdPosition::BelowTheFold => 3,
            AdPosition::Header => 4,
            AdPosition::Footer => 5,
            AdPosition::Sidebar => 6,
            AdPosition::FullScreen => 7,
        }
    }

    /// The variant that `code` stands for, or the error for a number outside the list.
    pub open spec fn of_code(code: i32) -> Result<AdPosition, ErrorView> {
        if code == 0 {
            Ok(AdPosition::Unknown)
        } else if code == 1 {
            Ok(AdPosition::AboveTheFold)
        } else if code == 2 {
            Ok(AdPosition::LikelyBelowTheFold)
        } else if code == 3 {
            Ok(AdPosition::BelowTheFold)
        } else if code == 4 {
            Ok(AdPosition::Header)
        } else if code == 5 {
            Ok(AdPosition::Footer)
        } else if code == 6 {
            Ok(AdPosition::Sidebar)
        } else if code == 7 {
            Ok(AdPosition::FullScreen)
        } else {
            Err(ErrorView::domain(code as i64, "one of: 0, 1, 2, 3, 4, 5, 6, 7"@))
        }
    }

    /// The number that stands for this variant on the wire. It is read back as the same
    /// variant.
    pub fn serialize(&self) -> (code: i32)
        ensures
            code == self.code(),
            AdPosition::of_code(code) == Ok::<AdPosition, ErrorView>(*self),
    {
        match self {
            AdPosition::Unknown => 0,
            AdPosition::AboveTheFold => 1,
            AdPosition::LikelyBelowTheFold => 2,
            AdPosition::BelowTheFold => 3,
            AdPosition::Header => 4,
            AdPosition::Footer => 5,
            AdPosition::Sidebar => 6,
            AdPosition::FullScreen => 7,
        }
    }

    /// The variant that `code` stands for. A number outside the list is an error that
    /// names it; a variant that is returned stands for `code`.
    pub fn deserialize(code: i32) -> (r: Result<AdPosition, Error>)
        ensures
            match (r, AdPosition::of_code(code)) {
                (Ok(x), Ok(m)) => x == m,
                (Err(e), Err(f)) => e@ == f,
                _ => false,
            },
            r matches Ok(x) ==> x.code() == code,
    {
        match code {
            0 => Ok(AdPosition::Unknown),
            1 => Ok(AdPosition::AboveTheFold),
            2 => Ok(AdPosition::LikelyBelowTheFold),
            3 => Ok(AdPosition::BelowTheFold),
            4 => Ok(AdPosition::Header),
            5 => Ok(AdPosition::Footer),
            6 => Ok(AdPosition::Sidebar),
            7 => Ok(AdPosition::FullScreen),
            _ => Err(Error::domain(code as i64, "one of: 0, 1, 2, 3, 4, 5, 6, 7")),
        }
    }
}

impl Codec for AdPosition {
    type Model = AdPosition;

    open spec fn model(&self) -> AdPosition {
        *self
    }

    open spec fn valid(m: AdPosition) -> bool {
        true
    }

    open spec fn current(m: AdPosition) -> bool {
        true
    }

    open spec fn encoded(m: AdPosition) -> Json {
        <i32 as Codec>::encoded(m.code())
    }

    open spec fn decoded(json: Json) -> Result<AdPosition, ErrorView> {
        match <i32 as Codec>::decoded(json) {
            Ok(code) => AdPosition::of_code(code),
            Err(e) => Err(e),
        }
    }

    fn to_value(&self) -> (value: Value) {
        self.serialize().to_value()
    }

    fn from_value(value: &Value) -> (r: Result<AdPosition, Error>) {
        match <i32 as Codec>::from_value(value) {
            Ok(code) => AdPosition::deserialize(code),
            Err(e) => Err(e),
        }
    }

    proof fn round_trip(m: AdPosition) {
    }

    proof fn decoded_valid(json: Json) {
    }
}

} // verus!
