//! Video Placement Types: the codes of list 5.9 of OpenRTB 2.5.

use vstd::prelude::*;
use serde_json::Value;
use crate::codec::Codec;
use crate::error::{Error, ErrorView};
use crate::json::Json;

verus! {

/// Video Placement Types (OpenRTB 2.5, list 5.9).
///
/// The following table lists the various types of video placements derived largely from the IAB
/// Digital Video Guidelines.
#[derive(Clone, Copy, Debug, PartialEq, Eq, Structural)]
pub enum VideoPlacementType {
    /// In-Stream Played before, during or after the streaming video content that the consumer
    /// has requested (e.g., Pre-roll, Mid-roll, Post-roll).
    InStream,
    /// In-Banner Exists within a web banner that leverages the banner space to deliver a video
    /// experience as opposed to another static or rich media format. The format relies on the
    /// existence of display ad inventory on the page for its delivery.
    InBanner,
    /// In-Article Loads and plays dynamically between paragraphs of editorial content; existing
    /// as a standalone branded message.
    InArticle,
    /// In-Feed Found in content, social, or product feeds.
    InFeed,
    /// Interstitial/Slider/Floating Covers the entire or a portion of screen area, but is
    /// always on screen while displayed (i.e. cannot be scrolled out of view). Note that a
    /// full-screen interstitial (e.g., in mobile) can be distinguished from a floating/slider
    /// unit by the imp.instl field.
    Floating,
}

impl VideoPlacementType {
    /// The number that stands for this variant on the wire.
    pub open spec fn code(self) -> i32 {
        match self {
            VideoPlacementType::InStream => 1,
            VideoPlacementType::InBanner => 2,
            VideoPlacementType::InArticle => 3,
            VideoPlacementType::InFeed => 4,
            VideoPlacementType::Floating => 5,
        }
    }

    /// The variant that `code` stands for, or the error for a number outside the list.
    pub open spec fn of_code(code: i32) -> Result<VideoPlacementType, ErrorView> {
        if code == 1 {
            Ok(VideoPlacementType::InStream)
        } else if code == 2 {
            Ok(VideoPlacementType::InBanner)
        } else if code == 3 {
            Ok(VideoPlacementType::InArticle)
        } else if code == 4 {
            Ok(VideoPlacementType::InFeed)
        } else if code == 5 {
            Ok(VideoPlacementType::Floating)
        } else {
            Err(ErrorView::domain(code as i64, "one of: 1, 2, 3, 4, 5"@))
        }
    }

    /// The number that stands for this variant on the wire. It is read back as the same
    /// variant.
    pub fn serialize(&self) -> (code: i32)
        ensures
            code == self.code(),
            VideoPlacementType::of_code(code) == Ok::<VideoPlacementType, ErrorView>(*self),
    {
        match self {
            VideoPlacementType::InStream => 1,
            VideoPlacementType::InBanner => 2,
            VideoPlacementType::InArticle => 3,
            VideoPlacementType::InFeed => 4,
            VideoPlacementType::Floating => 5,
        }
    }

    /// The variant that `code` stands for. A number outside the list is an error that
    /// names it; a variant that is returned stands for `code`.
    pub fn deserialize(code: i32) -> (r: Result<VideoPlacementType, Error>)
        ensures
            match (r, VideoPlacementType::of_code(code)) {
                (Ok(x), Ok(m)) => x == m,
                (Err(e), Err(f)) => e@ == f,
                _ => false,
            },
            r matches Ok(x) ==> x.code() == code,
    {
        match code {
            1 => Ok(VideoPlacementType::InStream),
            2 => Ok(VideoPlacementType::InBanner),
            3 => Ok(VideoPlacementType::InArticle),
            4 => Ok(VideoPlacementType::InFeed),
            5 => Ok(VideoPlacementType::Floating),
            _ => Err(Error::domain(code as i64, "one of: 1, 2, 3, 4, 5")),
        }
    }
}

impl Codec for VideoPlacementType {
    type Model = VideoPlacementType;

    open spec fn model(&self) -> VideoPlacementType {
        *self
    }

    open spec fn valid(m: VideoPlacementType) -> bool {
        true
    }

    open spec fn current(m: VideoPlacementType) -> bool {
        true
    }

    open spec fn encoded(m: VideoPlacementType) -> Json {
        <i32 as Codec>::encoded(m.code())
    }

    open spec fn decoded(json: Json) -> Result<VideoPlacementType, ErrorView> {
        match <i32 as Codec>::decoded(json) {
            Ok(code) => VideoPlacementType::of_code(code),
            Err(e) => Err(e),
        }
    }

    fn to_value(&self) -> (value: Value) {
        self.serialize().to_value()
    }

    fn from_value(value: &Value) -> (r: Result<VideoPlacementType, Error>) {
        match <i32 as Codec>::from_value(value) {
            Ok(code) => VideoPlacementType::deserialize(code),
            Err(e) => Err(e),
        }
    }

    proof fn round_trip(m: VideoPlacementType) {
    }

    proof fn decoded_valid(json: Json) {
    }
}

} // verus!
