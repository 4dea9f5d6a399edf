//! IQG Media Ratings: the codes of list 5.19 of OpenRTB 2.5.

use vstd::prelude::*;
use serde_json::Value;
use crate::codec::Codec;
use crate::error::{Error, ErrorView};
use crate::json::Json;

verus! {

/// IQG Media Ratings (OpenRTB 2.5, list 5.19).
///
/// The following table lists the media ratings used in describing content based on the IQG 2.1
/// categorization. Refer to www.iab.com/guidelines/digital-video-suite for more information.
#[derive(Clone, Copy, Debug, PartialEq, Eq, Structural)]
pub enum IqgMediaRating {
    /// All Audiences
    AllAudiences,
    /// Everyone Over 12
    EveryoneOver12,
    /// Mature Audiences
    MatureAudiences,
}

impl IqgMediaRating {
    /// The number that stands for this variant on the wire.
    pub open spec fn code(self) -> i32 {
        match self {
            IqgMediaRating::AllAudiences => 1,
            IqgMediaRating::EveryoneOver12 => 2,
            IqgMediaRating::MatureAudiences => 3,
        }
    }

    /// The variant that `code` stands for, or the error for a number outside the list.
    pub open spec fn of_code(code: i32) -> Result<IqgMediaRating, ErrorView> {
        if code == 1 {
            Ok(IqgMediaRating::AllAudiences)
        } else if code == 2 {
            Ok(IqgMediaRating::EveryoneOver12)
        } else if code == 3 {
            Ok(IqgMediaRating::MatureAudiences)
        } else {
            Err(ErrorView::domain(code as i64, "one of: 1, 2, 3"@))
        }
    }

    /// The number that stands for this variant on the wire. It is read back as the same
    /// variant.
    pub fn serialize(&self) -> (code: i32)
        ensures
            code == self.code(),
            IqgMediaRating::of_code(code) == Ok::<IqgMediaRating, ErrorView>(*self),
    {
        match self {
            IqgMediaRating::AllAudiences => 1,
            IqgMediaRating::EveryoneOver12 => 2,
            IqgMediaRating::MatureAudiences => 3,
        }
    }

    /// The variant that `code` stands for. A number outside the list is an error that
    /// names it; a variant that is returned stands for `code`.
    pub fn deserialize(code: i32) -> (r: Result<IqgMediaRating, Error>)
        ensures
            match (r, IqgMediaRating::of_code(code)) {
                (Ok(x), Ok(m)) => x == m,
                (Err(e), Err(f)) => e@ == f,
                _ => false,
            },
            r matches Ok(x) ==> x.code() == code,
    {
        match code {
            1 => Ok(IqgMediaRating::AllAudiences),
            2 => Ok(IqgMediaRating::EveryoneOver12),
            3 => Ok(IqgMediaRating::MatureAudiences),
            _ => Err(Error::domain(code as i64, "one of: 1, 2, 3")),
        }
    }
}

impl Codec for IqgMediaRating {
    type Model = IqgMediaRating;

    open spec fn model(&self) -> IqgMediaRating {
        *self
    }

    open spec fn valid(m: IqgMediaRating) -> bool {
        true
    }

    open spec fn current(m: IqgMediaRating) -> bool {
        true
    }

    open spec fn encoded(m: IqgMediaRating) -> Json {
        <i32 as Codec>::encoded(m.code())
    }

    open spec fn decoded(json: Json) -> Result<IqgMediaRating, ErrorView> {
        match <i32 as Codec>::decoded(json) {
            Ok(code) => IqgMediaRating::of_code(code),
            Err(e) => Err(e),
        }
    }

    fn to_value(&self) -> (value: Value) {
        self.serialize().to_value()
    }

    fn from_value(value: &Value) -> (r: Result<IqgMediaRating, Error>) {
        match <i32 as Codec>::from_value(value) {
            Ok(code) => IqgMediaRating::deserialize(code),
            Err(e) => Err(e),
        }
    }

    proof fn round_trip(m: IqgMediaRating) {
    }

    proof fn decoded_valid(json: Json) {
    }
}

} // verus!
