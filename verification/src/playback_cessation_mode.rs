//! Playback Cessation Modes: the codes of list 5.11 of OpenRTB 2.5.

use vstd::prelude::*;
use serde_json::Value;
use crate::codec::Codec;
use crate::error::{Error, ErrorView};
use crate::json::Json;

verus! {

/// Playback Cessation Modes (OpenRTB 2.5, list 5.11).
///
/// The following table lists the various modes for when playback terminates.
#[derive(Clone, Copy, Debug, PartialEq, Eq, Structural)]
pub enum PlaybackCessationMode {
    /// On Video Completion or when Terminated by User
    CompletionOrUser,
    /// On Leaving Viewport or when Terminated by User
    LeavingOrUser,
    /// On Leaving Viewport Continues as a Floating/Slider Unit until Video Completion or when
    /// Terminated by User
    LeavingContinuesOrUser,
}

impl PlaybackCessationMode {
    /// The number that stands for this variant on the wire.
    pub open spec fn code(self) -> i32 {
        match self {
            PlaybackCessationMode::CompletionOrUser => 1,
            PlaybackCessationMode::LeavingOrUser => 2,
            PlaybackCessationMode::LeavingContinuesOrUser => 3,
        }
    }

    /// The variant that `code` stands for, or the error for a number outside the list.
    pub open spec fn of_code(code: i32) -> Result<PlaybackCessationMode, ErrorView> {
        if code == 1 {
            Ok(PlaybackCessationMode::CompletionOrUser)
        } else if code == 2 {
            Ok(PlaybackCessationMode::LeavingOrUser)
        } else if code == 3 {
            Ok(PlaybackCessationMode::LeavingContinuesOrUser)
        } else {
            Err(ErrorView::domain(code as i64, "one of: 1, 2, 3"@))
        }
    }

    /// The number that stands for this variant on the wire. It is read back as the same
    /// variant.
    pub fn serialize(&self) -> (code: i32)
        ensures
            code == self.code(),
            PlaybackCessationMode::of_code(code) == Ok::<PlaybackCessationMode, ErrorView>(*self),
    {
        match self {
            PlaybackCessationMode::CompletionOrUser => 1,
            PlaybackCessationMode::LeavingOrUser => 2,
            PlaybackCessationMode::LeavingContinuesOrUser => 3,
        }
    }

    /// The variant that `code` stands for. A number outside the list is an error that
    /// names it; a variant that is returned stands for `code`.
    pub fn deserialize(code: i32) -> (r: Result<PlaybackCessationMode, Error>)
        ensures
            match (r, PlaybackCessationMode::of_code(code)) {
                (Ok(x), Ok(m)) => x == m,
                (Err(e), Err(f)) => e@ == f,
                _ => false,
            },
            r matches Ok(x) ==> x.code() == code,
    {
        match code {
            1 => Ok(PlaybackCessationMode::CompletionOrUser),
            2 => Ok(PlaybackCessationMode::LeavingOrUser),
            3 => Ok(PlaybackCessationMode::LeavingContinuesOrUser),
            _ => Err(Error::domain(code as i64, "one of: 1, 2, 3")),
        }
    }
}

impl Codec for PlaybackCessationMode {
    type Model = PlaybackCessationMode;

    open spec fn model(&self) -> PlaybackCessationMode {
        *self
    }

    open spec fn valid(m: PlaybackCessationMode) -> bool {
        true
    }

    open spec fn current(m: PlaybackCessationMode) -> bool {
        true
    }

    open spec fn encoded(m: PlaybackCessationMode) -> Json {
        <i32 as Codec>::encoded(m.code())
    }

    open spec fn decoded(json: Json) -> Result<PlaybackCessationMode, ErrorView> {
        match <i32 as Codec>::decoded(json) {
            Ok(code) => PlaybackCessationMode::of_code(code),
            Err(e) => Err(e),
        }
    }

    fn to_value(&self) -> (value: Value) {
        self.serialize().to_value()
    }

    fn from_value(value: &Value) -> (r: Result<PlaybackCessationMode, Error>) {
        match <i32 as Codec>::from_value(value) {
            Ok(code) => PlaybackCessationMode::deserialize(code),
            Err(e) => Err(e),
        }
    }

    proof fn round_trip(m: PlaybackCessationMode) {
    }

    proof fn decoded_valid(json: Json) {
    }
}

} // verus!
