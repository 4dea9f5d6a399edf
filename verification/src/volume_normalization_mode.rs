//! Volume Normalization Modes: the codes of list 5.17 of OpenRTB 2.5.

use vstd::prelude::*;
use serde_json::Value;
use crate::codec::Codec;
use crate::error::{Error, ErrorView};
use crate::json::Json;

verus! {

/// Volume Normalization Modes (OpenRTB 2.5, list 5.17).
///
/// The following table lists the types of volume normalization modes, typically for audio.
#[derive(Clone, Copy, Debug, PartialEq, Eq, Structural)]
pub enum VolumeNormalizationMode {
    /// None
    NotNormalized,
    /// Ad Volume Average Normalized to Content
    AverageVolume,
    /// Ad Volume Peak Normalized to Content
    PeakVolume,
    /// Ad Loudness Normalized to Content
    Loudness,
    /// Custom Volume Normalization
    CustomVolume,
}

impl VolumeNormalizationMode {
    /// The number that stands for this variant on the wire.
    pub open spec fn code(self) -> i32 {
        match self {
            VolumeNormalizationMode::NotNormalized => 0,
            VolumeNormalizationMode::AverageVolume => 1,
            VolumeNormalizationMode::PeakVolume => 2,
            VolumeNormalizationMode::Loudness => 3,
            VolumeNormalizationMode::CustomVolume => 4,
        }
    }

    /// The variant that `code` stands for, or the error for a number outside the list.
    pub open spec fn of_code(code: i32) -> Result<VolumeNormalizationMode, ErrorView> {
        if code == 0 {
            Ok(VolumeNormalizationMode::NotNormalized)
        } else if code == 1 {
            Ok(VolumeNormalizationMode::AverageVolume)
        } else if code == 2 {
            Ok(VolumeNormalizationMode::PeakVolume)
        } else if code == 3 {
            Ok(VolumeNormalizationMode::Loudness)
        } else if code == 4 {
            Ok(VolumeNormalizationMode::CustomVolume)
        } else {
            Err(ErrorView::domain(code as i64, "one of: 0, 1, 2, 3, 4"@))
        }
    }

    /// The number that stands for this variant on the wire. It is read back as the same
    /// variant.
    pub fn serialize(&self) -> (code: i32)
        ensures
            code == self.code(),
            VolumeNormalizationMode::of_code(
                code) == Ok::<VolumeNormalizationMode,
                ErrorView>(*self,
            ),
    {
        match self {
            VolumeNormalizationMode::NotNormalized => 0,
            VolumeNormalizationMode::AverageVolume => 1,
            VolumeNormalizationMode::PeakVolume => 2,
            VolumeNormalizationMode::Loudness => 3,
            VolumeNormalizationMode::CustomVolume => 4,
        }
    }

    /// The variant that `code` stands for. A number outside the list is an error that
    /// names it; a variant that is returned stands for `code`.
    pub fn deserialize(code: i32) -> (r: Result<VolumeNormalizationMode, Error>)
        ensures
            match (r, VolumeNormalizationMode::of_code(code)) {
                (Ok(x), Ok(m)) => x == m,
                (Err(e), Err(f)) => e@ == f,
                _ => false,
            },
            r matches Ok(x) ==> x.code() == code,
    {
        match code {
            0 => Ok(VolumeNormalizationMode::NotNormalized),
            1 => Ok(VolumeNormalizationMode::AverageVolume),
            2 => Ok(VolumeNormalizationMode::PeakVolume),
            3 => Ok(VolumeNormalizationMode::Loudness),
            4 => Ok(VolumeNormalizationMode::CustomVolume),
            _ => Err(Error::domain(code as i64, "one of: 0, 1, 2, 3, 4")),
        }
    }
}

impl Codec for VolumeNormalizationMode {
    type Model = VolumeNormalizationMode;

    open spec fn model(&self) -> VolumeNormalizationMode {
        *self
    }

    open spec fn valid(m: VolumeNormalizationMode) -> bool {
        true
    }

    open spec fn current(m: VolumeNormalizationMode) -> bool {
        true
    }

    open spec fn encoded(m: VolumeNormalizationMode) -> Json {
        <i32 as Codec>::encoded(m.code())
    }

    open spec fn decoded(json: Json) -> Result<VolumeNormalizationMode, ErrorView> {
        match <i32 as Codec>::decoded(json) {
            Ok(code) => VolumeNormalizationMode::of_code(code),
            Err(e) => Err(e),
        }
    }

    fn to_value(&self) -> (value: Value) {
        self.serialize().to_value()
    }

    fn from_value(value: &Value) -> (r: Result<VolumeNormalizationMode, Error>) {
        match <i32 as Codec>::from_value(value) {
            Ok(code) => VolumeNormalizationMode::deserialize(code),
            Err(e) => Err(e),
        }
    }

    proof fn round_trip(m: VolumeNormalizationMode) {
    }

    proof fn decoded_valid(json: Json) {
    }
}

} // verus!
