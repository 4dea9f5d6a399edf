//! Expandable Direction: the codes of list 5.5 of OpenRTB 2.5.

use vstd::prelude::*;
use serde_json::Value;
use crate::codec::Codec;
use crate::error::{Error, ErrorView};
use crate::json::Json;

verus! {

/// Expandable Direction (OpenRTB 2.5, list 5.5).
///
/// The following table lists the directions in which an expandable ad may expand, given the
/// positioning of the ad unit on the page and constraints imposed by the content.
#[derive(Clone, Copy, Debug, PartialEq, Eq, Structural)]
pub enum ExpandableDirection {
    /// Left
    Left,
    /// Right
    Right,
    /// Up
    Up,
    /// Down
    Down,
    /// Full Screen
    FullScreen,
}

impl ExpandableDirection {
    /// The number that stands for this variant on the wire.
    pub open spec fn code(self) -> i32 {
        match self {
            ExpandableDirection::Left => 1,
            ExpandableDirection::Right => 2,
            ExpandableDirection::Up => 3,
            ExpandableDirection::Down => 4,
            ExpandableDirection::FullScreen => 5,
        }
    }

    /// The variant that `code` stands for, or the error for a number outside the list.
    pub open spec fn of_code(code: i32) -> Result<ExpandableDirection, ErrorView> {
        if code == 1 {
            Ok(ExpandableDirection::Left)
        } else if code == 2 {
            Ok(ExpandableDirection::Right)
        } else if code == 3 {
            Ok(ExpandableDirection::Up)
        } else if code == 4 {
            Ok(ExpandableDirection::Down)
        } else if code == 5 {
            Ok(ExpandableDirection::FullScreen)
        } else {
            Err(ErrorView::domain(code as i64, "one of: 1, 2, 3, 4, 5"@))
        }
    }

    /// The number that stands for this variant on the wire. It is read back as the same
    /// variant.
    pub fn serialize(&self) -> (code: i32)
        ensures
            code == self.code(),
            ExpandableDirection::of_code(code) == Ok::<ExpandableDirection, ErrorView>(*self),
    {
        match self {
            ExpandableDirection::Left => 1,
            ExpandableDirection::Right => 2,
            ExpandableDirection::Up => 3,
            ExpandableDirection::Down => 4,
            ExpandableDirection::FullScreen => 5,
        }
    }

    /// The variant that `code` stands for. A number outside the list is an error that
    /// names it; a variant that is returned stands for `code`.
    pub fn deserialize(code: i32) -> (r: Result<ExpandableDirection, Error>)
        ensures
            match (r, ExpandableDirection::of_code(code)) {
                (Ok(x), Ok(m)) => x == m,
                (Err(e), Err(f)) => e@ == f,
                _ => false,
            },
            r matches Ok(x) ==> x.code() == code,
    {
        match code {
            1 => Ok(ExpandableDirection::Left),
            2 => Ok(ExpandableDirection::Right),
            3 => Ok(ExpandableDirection::Up),
            4 => Ok(ExpandableDirection::Down),
            5 => Ok(ExpandableDirection::FullScreen),
            _ => Err(Error::domain(code as i64, "one of: 1, 2, 3, 4, 5")),
        }
    }
}

impl Codec for ExpandableDirection {
    type Model = ExpandableDirection;

    open spec fn model(&self) -> ExpandableDirection {
        *self
    }

    open spec fn valid(m: ExpandableDirection) -> bool {
        true
    }

    open spec fn current(m: ExpandableDirection) -> bool {
        true
    }

    open spec fn encoded(m: ExpandableDirection) -> Json {
        <i32 as Codec>::encoded(m.code())
    }

    open spec fn decoded(json: Json) -> Result<ExpandableDirection, ErrorView> {
        match <i32 as Codec>::decoded(json) {
            Ok(code) => ExpandableDirection::of_code(code),
            Err(e) => Err(e),
        }
    }

    fn to_value(&self) -> (value: Value) {
        self.serialize().to_value()
    }

    fn from_value(value: &Value) -> (r: Result<ExpandableDirection, Error>) {
        match <i32 as Codec>::from_value(value) {
            Ok(code) => ExpandableDirection::deserialize(code),
            Err(e) => Err(e),
        }
    }

    proof fn round_trip(m: ExpandableDirection) {
    }

    proof fn decoded_valid(json: Json) {
    }
}

} // verus!
