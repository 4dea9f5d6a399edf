//! Banner Ad Types: the codes of list 5.2 of OpenRTB 2.5.

use vstd::prelude::*;
use serde_json::Value;
use crate::codec::Codec;
use crate::error::{Error, ErrorView};
use crate::json::Json;

verus! {

/// Banner Ad Types (OpenRTB 2.5, list 5.2).
///
/// The following table indicates the types of ads that can be accepted by the exchange unless
/// restricted by publisher site settings.
#[derive(Clone, Copy, Debug, PartialEq, Eq, Structural)]
pub enum BannerAdType {
    /// XHTML Text Ad (usually mobile)
    XhtmlTextAd,
    /// XHTML Banner Ad. (usually mobile)
    XhtmlBannerAd,
    /// JavaScript Ad; must be valid XHTML (i.e., Script Tags Included)
    JavaScriptAd,
    /// iframe
    Iframe,
}

impl BannerAdType {
    /// The number that stands for this variant on the wire.
    pub open spec fn code(self) -> i32 {
        match self {
            BannerAdType::XhtmlTextAd => 1,
            BannerAdType::XhtmlBannerAd => 2,
            BannerAdType::JavaScriptAd => 3,
            BannerAdType::Iframe => 4,
        }
    }

    /// The variant that `code` stands for, or the error for a number outside the list.
    pub open spec fn of_code(code: i32) -> Result<BannerAdType, ErrorView> {
        if code == 1 {
            Ok(BannerAdType::XhtmlTextAd)
        } else if code == 2 {
            Ok(BannerAdType::XhtmlBannerAd)
        } else if code == 3 {
            Ok(BannerAdType::JavaScriptAd)
        } else if code == 4 {
            Ok(BannerAdType::Iframe)
        } else {
            Err(ErrorView::domain(code as i64, "one of: 1, 2, 3, 4"@))
        }
    }

    /// The number that stands for this variant on the wire. It is read back as the same
    /// variant.
    pub fn serialize(&self) -> (code: i32)
        ensures
            code == self.code(),
            BannerAdType::of_code(code) == Ok::<BannerAdType, ErrorView>(*self),
    {
        match self {
            BannerAdType::XhtmlTextAd => 1,
            BannerAdType::XhtmlBannerAd => 2,
            BannerAdType::JavaScriptAd => 3,
            BannerAdType::Iframe => 4,
        }
    }

    /// The variant that `code` stands for. A number outside the list is an error that
    /// names it; a variant that is returned stands for `code`.
    pub fn deserialize(code: i32) -> (r: Result<BannerAdType, Error>)
        ensures
            match (r, BannerAdType::of_code(code)) {
                (Ok(x), Ok(m)) => x == m,
                (Err(e), Err(f)) => e@ == f,
                _ => false,
            },
            r matches Ok(x) ==> x.code() == code,
    {
        match code {
            1 => Ok(BannerAdType::XhtmlTextAd),
            2 => Ok(BannerAdType::XhtmlBannerAd),
            3 => Ok(BannerAdType::JavaScriptAd),
            4 => Ok(BannerAdType::Iframe),
            _ => Err(Error::domain(code as i64, "one of: 1, 2, 3, 4")),
        }
    }
}

impl Codec for BannerAdType {
    type Model = BannerAdType;

    open spec fn model(&self) -> BannerAdType {
        *self
    }

    open spec fn valid(m: BannerAdType) -> bool {
        true
    }

    open spec fn current(m: BannerAdType) -> bool {
        true
    }

    open spec fn encoded(m: BannerAdType) -> Json {
        <i32 as Codec>::encoded(m.code())
    }

    open spec fn decoded(json: Json) -> Result<BannerAdType, ErrorView> {
        match <i32 as Codec>::decoded(json) {
            Ok(code) => BannerAdType::of_code(code),
            Err(e) => Err(e),
        }
    }

    fn to_value(&self) -> (value: Value) {
        self.serialize().to_value()
    }

    fn from_value(value: &Value) -> (r: Result<BannerAdType, Error>) {
        match <i32 as Codec>::from_value(value) {
            Ok(code) => BannerAdType::deserialize(code),
            Err(e) => Err(e),
        }
    }

    proof fn round_trip(m: BannerAdType) {
    }

    proof fn decoded_valid(json: Json) {
    }
}

} // verus!
