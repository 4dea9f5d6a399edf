//! Content Context: the codes of list 5.18 of OpenRTB 2.5.

use vstd::prelude::*;
use serde_json::Value;
use crate::codec::Codec;
use crate::error::{Error, ErrorView};
use crate::json::Json;

verus! {

/// Content Context (OpenRTB 2.5, list 5.18).
///
/// The following table lists the various options for indicating the type of content being used
/// or consumed by the user in which the impression will appear. This OpenRTB table has values
/// derived from the Inventory Quality Guidelines (IQG). Practitioners should keep in sync with
/// updates to the IQG values.
#[derive(Clone, Copy, Debug, PartialEq, Eq, Structural)]
pub enum ContentContext {
    /// Video (i.e., video file or stream such as Internet TV broadcasts)
    Video,
    /// Game (i.e., an interactive software game)
    Game,
    /// Music (i.e., audio file or stream such as Internet radio broadcasts)
    Music,
    /// Application (i.e., an interactive software application)
    Application,
    /// Text (i.e., primarily textual document such as a web page, eBook, or news article)
    Text,
    /// Other (i.e., none of the other categories applies)
    Other,
    /// Unknown
    Unknown,
}

impl ContentContext {
    /// The number that stands for this variant on the wire.
    pub open spec fn code(self) -> i32 {
        match self {
            ContentContext::Video => 1,
            ContentContext::Game => 2,
            ContentContext::Music => 3,
            ContentContext::Application => 4,
            ContentContext::Text => 5,
            ContentContext::Other => 6,
            ContentContext::Unknown => 7,
        }
    }

    /// The variant that `code` stands for, or the error for a number outside the list.
    pub open spec fn of_code(code: i32) -> Result<ContentContext, ErrorView> {
        if code == 1 {
            Ok(ContentContext::Video)
        } else if code == 2 {
            Ok(ContentContext::Game)
        } else if code == 3 {
            Ok(ContentContext::Music)
        } else if code == 4 {
            Ok(ContentContext::Application)
        } else if code == 5 {
            Ok(ContentContext::Text)
        } else if code == 6 {
            Ok(ContentContext::Other)
        } else if code == 7 {
            Ok(ContentContext::Unknown)
        } else {
            Err(ErrorView::domain(code as i64, "one of: 1, 2, 3, 4, 5, 6, 7"@))
        }
    }

    /// The number that stands for this variant on the wire. It is read back as the same
    /// variant.
    pub fn serialize(&self) -> (code: i32)
        ensures
            code == self.code(),
            ContentContext::of_code(code) == Ok::<ContentContext, ErrorView>(*self),
    {
        match self {
            ContentContext::Video => 1,
            ContentContext::Game => 2,
            ContentContext::Music => 3,
            ContentContext::Application => 4,
            ContentContext::Text => 5,
            ContentContext::Other => 6,
            ContentContext::Unknown => 7,
        }
    }

    /// The variant that `code` stands for. A number outside the list is an error that
    /// names it; a variant that is returned stands for `code`.
    pub fn deserialize(code: i32) -> (r: Result<ContentContext, Error>)
        ensures
            match (r, ContentContext::of_code(code)) {
                (Ok(x), Ok(m)) => x == m,
                (Err(e), Err(f)) => e@ == f,
                _ => false,
            },
            r matches Ok(x) ==> x.code() == code,
    {
        match code {
            1 => Ok(ContentContext::Video),
            2 => Ok(ContentContext::Game),
            3 => Ok(ContentContext::Music),
            4 => Ok(ContentContext::Application),
            5 => Ok(ContentContext::Text),
            6 => Ok(ContentContext::Other),
            7 => Ok(ContentContext::Unknown),
            _ => Err(Error::domain(code as i64, "one of: 1, 2, 3, 4, 5, 6, 7")),
        }
    }
}

impl Codec for ContentContext {
    type Model = ContentContext;

    open spec fn model(&self) -> ContentContext {
        *self
    }

    open spec fn valid(m: ContentContext) -> bool {
        true
    }

    open spec fn current(m: ContentContext) -> bool {
        true
    }

    open spec fn encoded(m: ContentContext) -> Json {
        <i32 as Codec>::encoded(m.code())
    }

    open spec fn decoded(json: Json) -> Result<ContentContext, ErrorView> {
        match <i32 as Codec>::decoded(json) {
            Ok(code) => ContentContext::of_code(code),
            Err(e) => Err(e),
        }
    }

    fn to_value(&self) -> (value: Value) {
        self.serialize().to_value()
    }

    fn from_value(value: &Value) -> (r: Result<ContentContext, Error>) {
        match <i32 as Codec>::from_value(value) {
            Ok(code) => ContentContext::deserialize(code),
            Err(e) => Err(e),
        }
    }

    proof fn round_trip(m: ContentContext) {
    }

    proof fn decoded_valid(json: Json) {
    }
}

} // verus!
