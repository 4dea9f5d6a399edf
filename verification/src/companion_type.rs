//! Companion Types: the codes of list 5.14 of OpenRTB 2.5.

use vstd::prelude::*;
use serde_json::Value;
use crate::codec::Codec;
use crate::error::{Error, ErrorView};
use crate::json::Json;

verus! {

/// Companion Types (OpenRTB 2.5, list 5.14).
///
/// The following table lists the options to indicate markup types allowed for companion ads
/// that apply to video and audio ads. Refer to www.iab.com/guidelines/digital-video-suite for
/// more information.
#[derive(Clone, Copy, Debug, PartialEq, Eq, Structural)]
pub enum CompanionType {
    /// Static Resource
    Static,
    /// HTML Resource
    Html,
    /// iframe Resource
    Iframe,
}

impl CompanionType {
    /// The number that stands for this variant on the wire.
    pub open spec fn code(self) -> i32 {
        match self {
            CompanionType::Static => 1,
            CompanionType::Html => 2,
            CompanionType::Iframe => 3,
        }
    }

    /// The variant that `code` stands for, or the error for a number outside the list.
    pub open spec fn of_code(code: i32) -> Result<CompanionType, ErrorView> {
        if code == 1 {
            Ok(CompanionType::Static)
        } else if code == 2 {
            Ok(CompanionType::Html)
        } else if code == 3 {
            Ok(CompanionType::Iframe)
        } else {
            Err(ErrorView::domain(code as i64, "one of: 1, 2, 3"@))
        }
    }

    /// The number that stands for this variant on the wire. It is read back as the same
    /// variant.
    pub fn serialize(&self) -> (code: i32)
        ensures
            code == self.code(),
            CompanionType::of_code(code) == Ok::<CompanionType, ErrorView>(*self),
    {
        match self {
            CompanionType::Static => 1,
            CompanionType::Html => 2,
            CompanionType::Iframe => 3,
        }
    }

    /// The variant that `code` stands for. A number outside the list is an error that
    /// names it; a variant that is returned stands for `code`.
    pub fn deserialize(code: i32) -> (r: Result<CompanionType, Error>)
        ensures
            match (r, CompanionType::of_code(code)) {
                (Ok(x), Ok(m)) => x == m,
                (Err(e), Err(f)) => e@ == f,
                _ => false,
            },
            r matches Ok(x) ==> x.code() == code,
    {
        match code {
            1 => Ok(CompanionType::Static),
            2 => Ok(CompanionType::Html),
            3 => Ok(CompanionType::Iframe),
            _ => Err(Error::domain(code as i64, "one of: 1, 2, 3")),
        }
    }
}

impl Codec for CompanionType {
    type Model = CompanionType;

    open spec fn model(&self) -> CompanionType {
        *self
    }

    open spec fn valid(m: CompanionType) -> bool {
        true
    }

    open spec fn current(m: CompanionType) -> bool {
        true
    }

    open spec fn encoded(m: CompanionType) -> Json {
        <i32 as Codec>::encoded(m.code())
    }

    open spec fn decoded(json: Json) -> Result<CompanionType, ErrorView> {
        match <i32 as Codec>::decoded(json) {
            Ok(code) => CompanionType::of_code(code),
            Err(e) => Err(e),
        }
    }

    fn to_value(&self) -> (value: Value) {
        self.serialize().to_value()
    }

    fn from_value(value: &Value) -> (r: Result<CompanionType, Error>) {
        match <i32 as Codec>::from_value(value) {
            Ok(code) => CompanionType::deserialize(code),
            Err(e) => Err(e),
        }
    }

    proof fn round_trip(m: CompanionType) {
    }

    proof fn decoded_valid(json: Json) {
    }
}

} // verus!
