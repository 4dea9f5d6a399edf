//! Creative Attributes: the codes of list 5.3 of OpenRTB 2.5.

use vstd::prelude::*;
use serde_json::Value;
use crate::codec::Codec;
use crate::error::{Error, ErrorView};
use crate::json::Json;

verus! {

/// Creative Attributes (OpenRTB 2.5, list 5.3).
///
/// The following table specifies a standard list of creative attributes that can describe an ad
/// being served or serve as restrictions of thereof.
#[allow(non_camel_case_types)]
#[derive(Clone, Copy, Debug, PartialEq, Eq, Structural)]
pub enum CreativeAttribute {
    /// Audio Ad (Auto-Play)
    AudioAd_AutoPlay,
    /// Audio Ad (User Initiated)
    AudioAd_UserInitiated,
    /// Expandable (Automatic)
    Expandable_Automatic,
    /// Expandable (User Initiated - Click)
    Expandable_UserInitiated_Click,
    /// Expandable (User Initiated - Rollover)
    Expandable_UserInitiated_Rollover,
    /// In-Banner Video Ad (Auto-Play)
    InBannerVideoAd_AutoPlay,
    /// In-Banner Video Ad (User Initiated)
    InBannerVideoAd_UserInitiated,
    /// Pop (e.g., Over, Under, or Upon Exit)
    Pop,
    /// Provocative or Suggestive Imagery
    ProvocativeOrSuggestiveImagery,
    /// Shaky, Flashing, Flickering, Extreme Animation, Smileys
    Annoying,
    /// Surveys
    Surveys,
    /// Text Only
    TextOnly,
    /// User Interactive (e.g., Embedded Games)
    UserInteractive,
    /// Windows Dialog or Alert Style
    WindowsDialogOrAlertStyle,
    /// Has Audio On/Off Button
    HasAudioOnOffButton,
    /// Ad Provides Skip Button (e.g. VPAID-rendered skip button on pre-roll video)
    AdProvidesSkipButton,
    /// Adobe Flash
    AdobeFlash,
}

impl CreativeAttribute {
    /// The number that stands for this variant on the wire.
    pub open spec fn code(self) -> i32 {
        match self {
            CreativeAttribute::AudioAd_AutoPlay => 1,
            CreativeAttribute::AudioAd_UserInitiated => 2,
            CreativeAttribute::Expandable_Automatic => 3,
            CreativeAttribute::Expandable_UserInitiated_Click => 4,
            CreativeAttribute::Expandable_UserInitiated_Rollover => 5,
            CreativeAttribute::InBannerVideoAd_AutoPlay => 6,
            CreativeAttribute::InBannerVideoAd_UserInitiated => 7,
            CreativeAttribute::Pop => 8,
            CreativeAttribute::ProvocativeOrSuggestiveImagery => 9,
            CreativeAttribute::Annoying => 10,
            CreativeAttribute::Surveys => 11,
            CreativeAttribute::TextOnly => 12,
            CreativeAttribute::UserInteractive => 13,
            CreativeAttribute::WindowsDialogOrAlertStyle => 14,
            CreativeAttribute::HasAudioOnOffButton => 15,
            CreativeAttribute::AdProvidesSkipButton => 16,
            CreativeAttribute::AdobeFlash => 17,
        }
    }

    /// The variant that `code` stands for, or the error for a number outside the list.
    pub open spec fn of_code(code: i32) -> Result<CreativeAttribute, ErrorView> {
        if code == 1 {
            Ok(CreativeAttribute::AudioAd_AutoPlay)
        } else if code == 2 {
            Ok(CreativeAttribute::AudioAd_UserInitiated)
        } else if code == 3 {
            Ok(CreativeAttribute::Expandable_Automatic)
        } else if code == 4 {
            Ok(CreativeAttribute::Expandable_UserInitiated_Click)
        } else if code == 5 {
            Ok(CreativeAttribute::Expandable_UserInitiated_Rollover)
        } else if code == 6 {
            Ok(CreativeAttribute::InBannerVideoAd_AutoPlay)
        } else if code == 7 {
            Ok(CreativeAttribute::InBannerVideoAd_UserInitiated)
        } else if code == 8 {
            Ok(CreativeAttribute::Pop)
        } else if code == 9 {
            Ok(CreativeAttribute::ProvocativeOrSuggestiveImagery)
        } else if code == 10 {
            Ok(CreativeAttribute::Annoying)
        } else if code == 11 {
            Ok(CreativeAttribute::Surveys)
        } else if code == 12 {
            Ok(CreativeAttribute::TextOnly)
        } else if code == 13 {
            Ok(CreativeAttribute::UserInteractive)
        } else if code == 14 {
            Ok(CreativeAttribute::WindowsDialogOrAlertStyle)
        } else if code == 15 {
            Ok(CreativeAttribute::HasAudioOnOffButton)
        } else if code == 16 {
            Ok(CreativeAttribute::AdProvidesSkipButton)
        } else if code == 17 {
            Ok(CreativeAttribute::AdobeFlash)
        } else {
            Err(
                ErrorView::domain(
                    code as i64,
                    "one of: 1, 2, 3, 4, 5, 6, 7, 8, 9, 10, 11, 12, 13, 14, 15, 16, 17"@,
                ),
            )
        }
    }

    /// The number that stands for this variant on the wire. It is read back as the same
    /// variant.
    pub fn serialize(&self) -> (code: i32)
        ensures
            code == self.code(),
            CreativeAttribute::of_code(code) == Ok::<CreativeAttribute, ErrorView>(*self),
    {
        match self {
            CreativeAttribute::AudioAd_AutoPlay => 1,
            CreativeAttribute::AudioAd_UserInitiated => 2,
            CreativeAttribute::Expandable_Automatic => 3,
            CreativeAttribute::Expandable_UserInitiated_Click => 4,
            CreativeAttribute::Expandable_UserInitiated_Rollover => 5,
            CreativeAttribute::InBannerVideoAd_AutoPlay => 6,
            CreativeAttribute::InBannerVideoAd_UserInitiated => 7,
            CreativeAttribute::Pop => 8,
            CreativeAttribute::ProvocativeOrSuggestiveImagery => 9,
            CreativeAttribute::Annoying => 10,
            CreativeAttribute::Surveys => 11,
            CreativeAttribute::TextOnly => 12,
            CreativeAttribute::UserInteractive => 13,
            CreativeAttribute::WindowsDialogOrAlertStyle => 14,
            CreativeAttribute::HasAudioOnOffButton => 15,
            CreativeAttribute::AdProvidesSkipButton => 16,
            CreativeAttribute::AdobeFlash => 17,
        }
    }

    /// The variant that `code` stands for. A number outside the list is an error that
    /// names it; a variant that is returned stands for `code`.
    pub fn deserialize(code: i32) -> (r: Result<CreativeAttribute, Error>)
        ensures
            match (r, CreativeAttribute::of_code(code)) {
                (Ok(x), Ok(m)) => x == m,
                (Err(e), Err(f)) => e@ == f,
                _ => false,
            },
            r matches Ok(x) ==> x.code() == code,
    {
        match code {
            1 => Ok(CreativeAttribute::AudioAd_AutoPlay),
            2 => Ok(CreativeAttribute::AudioAd_UserInitiated),
            3 => Ok(CreativeAttribute::Expandable_Automatic),
            4 => Ok(CreativeAttribute::Expandable_UserInitiated_Click),
            5 => Ok(CreativeAttribute::Expandable_UserInitiated_Rollover),
            6 => Ok(CreativeAttribute::InBannerVideoAd_AutoPlay),
            7 => Ok(CreativeAttribute::InBannerVideoAd_UserInitiated),
            8 => Ok(CreativeAttribute::Pop),
            9 => Ok(CreativeAttribute::ProvocativeOrSuggestiveImagery),
            10 => Ok(CreativeAttribute::Annoying),
            11 => Ok(CreativeAttribute::Surveys),
            12 => Ok(CreativeAttribute::TextOnly),
            13 => Ok(CreativeAttribute::UserInteractive),
            14 => Ok(CreativeAttribute::WindowsDialogOrAlertStyle),
            15 => Ok(CreativeAttribute::HasAudioOnOffButton),
            16 => Ok(CreativeAttribute::AdProvidesSkipButton),
            17 => Ok(CreativeAttribute::AdobeFlash),
            _ => Err(
                Error::domain(
                    code as i64,
                    "one of: 1, 2, 3, 4, 5, 6, 7, 8, 9, 10, 11, 12, 13, 14, 15, 16, 17",
                ),
            ),
        }
    }
}

impl Codec for CreativeAttribute {
    type Model = CreativeAttribute;

    open spec fn model(&self) -> CreativeAttribute {
        *self
    }

    open spec fn valid(m: CreativeAttribute) -> bool {
        true
    }

    open spec fn current(m: CreativeAttribute) -> bool {
        true
    }

    open spec fn encoded(m: CreativeAttribute) -> Json {
        <i32 as Codec>::encoded(m.code())
    }

    open spec fn decoded(json: Json) -> Result<CreativeAttribute, ErrorView> {
        match <i32 as Codec>::decoded(json) {
            Ok(code) => CreativeAttribute::of_code(code),
            Err(e) => Err(e),
        }
    }

    fn to_value(&self) -> (value: Value) {
        self.serialize().to_value()
    }

    fn from_value(value: &Value) -> (r: Result<CreativeAttribute, Error>) {
        match <i32 as Codec>::from_value(value) {
            Ok(code) => CreativeAttribute::deserialize(code),
            Err(e) => Err(e),
        }
    }

    proof fn round_trip(m: CreativeAttribute) {
    }

    proof fn decoded_valid(json: Json) {
    }
}

} // verus!
