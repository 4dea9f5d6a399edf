//! Feed Types: the codes of list 5.16 of OpenRTB 2.5.

use vstd::prelude::*;
use serde_json::Value;
use crate::codec::Codec;
use crate::error::{Error, ErrorView};
use crate::json::Json;

verus! {

/// Feed Types (OpenRTB 2.5, list 5.16).
///
/// The following table lists the types of feeds, typically for audio.
#[derive(Clone, Copy, Debug, PartialEq, Eq, Structural)]
pub enum FeedType {
    /// Music Service
    MusicService,
    /// FM/AM Broadcast
    Broadcast,
    /// Podcast
    Podcast,
}

impl FeedType {
    /// The number that stands for this variant on the wire.
    pub open spec fn code(self) -> i32 {
        match self {
            FeedType::MusicService => 1,
            FeedType::Broadcast => 2,
            FeedType::Podcast => 3,
        }
    }

    /// The variant that `code` stands for, or the error for a number outside the list.
    pub open spec fn of_code(code: i32) -> Result<FeedType, ErrorView> {
        if code == 1 {
            Ok(FeedType::MusicService)
        } else if code == 2 {
            Ok(FeedType::Broadcast)
        } else if code == 3 {
            Ok(FeedType::Podcast)
        } else {
            Err(ErrorView::domain(code as i64, "one of: 1, 2, 3"@))
        }
    }

    /// The number that stands for this variant on the wire. It is read back as the same
    /// variant.
    pub fn serialize(&self) -> (code: i32)
        ensures
            code == self.code(),
            FeedType::of_code(code) == Ok::<FeedType, ErrorView>(*self),
    {
        match self {
            FeedType::MusicService => 1,
            FeedType::Broadcast => 2,
            FeedType::Podcast => 3,
        }
    }

    /// The variant that `code` stands for. A number outside the list is an error that
    /// names it; a variant that is returned stands for `code`.
    pub fn deserialize(code: i32) -> (r: Result<FeedType, Error>)
        ensures
            match (r, FeedType::of_code(code)) {
                (Ok(x), Ok(m)) => x == m,
                (Err(e), Err(f)) => e@ == f,
                _ => false,
            },
            r matches Ok(x) ==> x.code() == code,
    {
        match code {
            1 => Ok(FeedType::MusicService),
            2 => Ok(FeedType::Broadcast),
            3 => Ok(FeedType::Podcast),
            _ => Err(Error::domain(code as i64, "one of: 1, 2, 3")),
        }
    }
}

impl Codec for FeedType {
    type Model = FeedType;

    open spec fn model(&self) -> FeedType {
        *self
    }

    open spec fn valid(m: FeedType) -> bool {
        true
    }

    open spec fn current(m: FeedType) -> bool {
        true
    }

    open spec fn encoded(m: FeedType) -> Json {
        <i32 as Codec>::encoded(m.code())
    }

    open spec fn decoded(json: Json) -> Result<FeedType, ErrorView> {
        match <i32 as Codec>::decoded(json) {
            Ok(code) => FeedType::of_code(code),
            Err(e) => Err(e),
        }
    }

    fn to_value(&self) -> (value: Value) {
        self.serialize().to_value()
    }

    fn from_value(value: &Value) -> (r: Result<FeedType, Error>) {
        match <i32 as Codec>::from_value(value) {
            Ok(code) => FeedType::deserialize(code),
            Err(e) => Err(e),
        }
    }

    proof fn round_trip(m: FeedType) {
    }

    proof fn decoded_valid(json: Json) {
    }
}

} // verus!
