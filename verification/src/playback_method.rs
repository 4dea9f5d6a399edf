//! Playback Methods: the codes of list 5.10 of OpenRTB 2.5.

use vstd::prelude::*;
use serde_json::Value;
use crate::codec::Codec;
use crate::error::{Error, ErrorView};
use crate::json::Json;

verus! {

/// Playback Methods (OpenRTB 2.5, list 5.10).
///
/// The following table lists the various playback methods.
#[derive(Clone, Copy, Debug, PartialEq, Eq, Structural)]
pub enum PlaybackMethod {
    /// Initiates on Page Load with Sound On
    AutoPlaySoundOn,
    /// Initiates on Page Load with Sound Off by Default
    AutoPlaySoundOff,
    /// Initiates on Click with Sound On
    ClickToPlay,
    /// Initiates on Mouse-Over with Sound On
    MouseOver,
    /// Initiates on Entering Viewport with Sound On
    EnterSoundOn,
    /// Initiates on Entering Viewport with Sound Off by Default
    EnterSoundOff,
}

impl PlaybackMethod {
    /// The number that stands for this variant on the wire.
    pub open spec fn code(self) -> i32 {
        match self {
            PlaybackMethod::AutoPlaySoundOn => 1,
            PlaybackMethod::AutoPlaySoundOff => 2,
            PlaybackMethod::ClickToPlay => 3,
            PlaybackMethod::MouseOver => 4,
            PlaybackMethod::EnterSoundOn => 5,
            PlaybackMethod::EnterSoundOff => 6,
        }
    }

    /// The variant that `code` stands for, or the error for a number outside the list.
    pub open spec fn of_code(code: i32) -> Result<PlaybackMethod, ErrorView> {
        if code == 1 {
            Ok(PlaybackMethod::AutoPlaySoundOn)
        } else if code == 2 {
            Ok(PlaybackMethod::AutoPlaySoundOff)
        } else if code == 3 {
            Ok(PlaybackMethod::ClickToPlay)
        } else if code == 4 {
            Ok(PlaybackMethod::MouseOver)
        } else if code == 5 {
            Ok(PlaybackMethod::EnterSoundOn)
        } else if code == 6 {
            Ok(PlaybackMethod::EnterSoundOff)
        } else {
            Err(ErrorView::domain(code as i64, "one of: 1, 2, 3, 4, 5, 6"@))
        }
    }

    /// The number that stands for this variant on the wire. It is read back as the same
    /// variant.
    pub fn serialize(&self) -> (code: i32)
        ensures
            code == self.code(),
            PlaybackMethod::of_code(code) == Ok::<PlaybackMethod, ErrorView>(*self),
    {
        match self {
            PlaybackMethod::AutoPlaySoundOn => 1,
            PlaybackMethod::AutoPlaySoundOff => 2,
            PlaybackMethod::ClickToPlay => 3,
            PlaybackMethod::MouseOver => 4,
            PlaybackMethod::EnterSoundOn => 5,
            PlaybackMethod::EnterSoundOff => 6,
        }
    }

    /// The variant that `code` stands for. A number outside the list is an error that
    /// names it; a variant that is returned stands for `code`.
    pub fn deserialize(code: i32) -> (r: Result<PlaybackMethod, Error>)
        ensures
            match (r, PlaybackMethod::of_code(code)) {
                (Ok(x), Ok(m)) => x == m,
                (Err(e), Err(f)) => e@ == f,
                _ => false,
            },
            r matches Ok(x) ==> x.code() == code,
    {
        match code {
            1 => Ok(PlaybackMethod::AutoPlaySoundOn),
            2 => Ok(PlaybackMethod::AutoPlaySoundOff),
            3 => Ok(PlaybackMethod::ClickToPlay),
            4 => Ok(PlaybackMethod::MouseOver),
            5 => Ok(PlaybackMethod::EnterSoundOn),
            6 => Ok(PlaybackMethod::EnterSoundOff),
            _ => Err(Error::domain(code as i64, "one of: 1, 2, 3, 4, 5, 6")),
        }
    }
}

impl Codec for PlaybackMethod {
    type Model = PlaybackMethod;

    open spec fn model(&self) -> PlaybackMethod {
        *self
    }

    open spec fn valid(m: PlaybackMethod) -> bool {
        true
    }

    open spec fn current(m: PlaybackMethod) -> bool {
        true
    }

    open spec fn encoded(m: PlaybackMethod) -> Json {
        <i32 as Codec>::encoded(m.code())
    }

    open spec fn decoded(json: Json) -> Result<PlaybackMethod, ErrorView> {
        match <i32 as Codec>::decoded(json) {
            Ok(code) => PlaybackMethod::of_code(code),
            Err(e) => Err(e),
        }
    }

    fn to_value(&self) -> (value: Value) {
        self.serialize().to_value()
    }

    fn from_value(value: &Value) -> (r: Result<PlaybackMethod, Error>) {
        match <i32 as Codec>::from_value(value) {
            Ok(code) => PlaybackMethod::deserialize(code),
            Err(e) => Err(e),
        }
    }

    proof fn round_trip(m: PlaybackMethod) {
    }

    proof fn decoded_valid(json: Json) {
    }
}

} // verus!
