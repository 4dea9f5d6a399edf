//! Video Linearity: the codes of list 5.7 of OpenRTB 2.5.

use vstd::prelude::*;
use serde_json::Value;
use crate::codec::Codec;
use crate::error::{Error, ErrorView};
use crate::json::Json;

verus! {

/// Video Linearity (OpenRTB 2.5, list 5.7).
///
/// The following table indicates the options for video linearity. "In-stream" or "linear" video
/// refers to pre- roll, post-roll, or mid-roll video ads where the user is forced to watch ad
/// in order to see the video content. "Overlay" or "non-linear" refer to ads that are shown on
/// top of the video content.
///
/// This OpenRTB table has values derived from the Inventory Quality Guidelines (IQG).
/// Practitioners should keep in sync with updates to the IQG values.
#[derive(Clone, Copy, Debug, PartialEq, Eq, Structural)]
pub enum VideoLinearity {
    /// Linear / In-Stream
    Linear,
    /// Non-Linear / Overlay
    NonLinear,
}

impl VideoLinearity {
    /// The number that stands for this variant on the wire.
    pub open spec fn code(self) -> i32 {
        match self {
            VideoLinearity::Linear => 1,
            VideoLinearity::NonLinear => 2,
        }
    }

    /// The variant that `code` stands for, or the error for a number outside the list.
    pub open spec fn of_code(code: i32) -> Result<VideoLinearity, ErrorView> {
        if code == 1 {
            Ok(VideoLinearity::Linear)
        } else if code == 2 {
            Ok(VideoLinearity::NonLinear)
        } else {
            Err(ErrorView::domain(code as i64, "1 or 2"@))
        }
    }

    /// The number that stands for this variant on the wire. It is read back as the same
    /// variant.
    pub fn serialize(&self) -> (code: i32)
        ensures
            code == self.code(),
            VideoLinearity::of_code(code) == Ok::<VideoLinearity, ErrorView>(*self),
    {
        match self {
            VideoLinearity::Linear => 1,
            VideoLinearity::NonLinear => 2,
        }
    }

    /// The variant that `code` stands for. A number outside the list is an error that
    /// names it; a variant that is returned stands for `code`.
    pub fn deserialize(code: i32) -> (r: Result<VideoLinearity, Error>)
        ensures
            match (r, VideoLinearity::of_code(code)) {
                (Ok(x), Ok(m)) => x == m,
                (Err(e), Err(f)) => e@ == f,
                _ => false,
            },
            r matches Ok(x) ==> x.code() == code,
    {
        match code {
            1 => Ok(VideoLinearity::Linear),
            2 => Ok(VideoLinearity::NonLinear),
            _ => Err(Error::domain(code as i64, "1 or 2")),
        }
    }
}

impl Codec for VideoLinearity {
    type Model = VideoLinearity;

    open spec fn model(&self) -> VideoLinearity {
        *self
    }

    open spec fn valid(m: VideoLinearity) -> bool {
        true
    }

    open spec fn current(m: VideoLinearity) -> bool {
        true
    }

    open spec fn encoded(m: VideoLinearity) -> Json {
        <i32 as Codec>::encoded(m.code())
    }

    open spec fn decoded(json: Json) -> Result<VideoLinearity, ErrorView> {
        match <i32 as Codec>::decoded(json) {
            Ok(code) => VideoLinearity::of_code(code),
            Err(e) => Err(e),
        }
    }

    fn to_value(&self) -> (value: Value) {
        self.serialize().to_value()
    }

    fn from_value(value: &Value) -> (r: Result<VideoLinearity, Error>) {
        match <i32 as Codec>::from_value(value) {
            Ok(code) => VideoLinearity::deserialize(code),
            Err(e) => Err(e),
        }
    }

    proof fn round_trip(m: VideoLinearity) {
    }

    proof fn decoded_valid(json: Json) {
    }
}

} // verus!
