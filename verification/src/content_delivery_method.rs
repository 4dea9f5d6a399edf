//! Content Delivery Methods: the codes of list 5.15 of OpenRTB 2.5.

use vstd::prelude::*;
use serde_json::Value;
use crate::codec::Codec;
use crate::error::{Error, ErrorView};
use crate::json::Json;

verus! {

/// Content Delivery Methods (OpenRTB 2.5, list 5.15).
///
/// The following table lists the various options for the delivery of video or audio content.
#[derive(Clone, Copy, Debug, PartialEq, Eq, Structural)]
pub enum ContentDeliveryMethod {
    /// Streaming
    Streaming,
    /// Progressive
    Progressive,
    /// Download
    Download,
}

impl ContentDeliveryMethod {
    /// The number that stands for this variant on the wire.
    pub open spec fn code(self) -> i32 {
        match self {
            ContentDeliveryMethod::Streaming => 1,
            ContentDeliveryMethod::Progressive => 2,
            ContentDeliveryMethod::Download => 3,
        }
    }

    /// The variant that `code` stands for, or the error for a number outside the list.
    pub open spec fn of_code(code: i32) -> Result<ContentDeliveryMethod, ErrorView> {
        if code == 1 {
            Ok(ContentDeliveryMethod::Streaming)
        } else if code == 2 {
            Ok(ContentDeliveryMethod::Progressive)
        } else if code == 3 {
            Ok(ContentDeliveryMethod::Download)
        } else {
            Err(ErrorView::domain(code as i64, "one of: 1, 2, 3"@))
        }
    }

    /// The number that stands for this variant on the wire. It is read back as the same
    /// variant.
    pub fn serialize(&self) -> (code: i32)
        ensures
            code == self.code(),
            ContentDeliveryMethod::of_code(code) == Ok::<ContentDeliveryMethod, ErrorView>(*self),
    {
        match self {
            ContentDeliveryMethod::Streaming => 1,
            ContentDeliveryMethod::Progressive => 2,
            ContentDeliveryMethod::Download => 3,
        }
    }

    /// The variant that `code` stands for. A number outside the list is an error that
    /// names it; a variant that is returned stands for `code`.
    pub fn deserialize(code: i32) -> (r: Result<ContentDeliveryMethod, Error>)
        ensures
            match (r, ContentDeliveryMethod::of_code(code)) {
                (Ok(x), Ok(m)) => x == m,
                (Err(e), Err(f)) => e@ == f,
                _ => false,
            },
            r matches Ok(x) ==> x.code() == code,
    {
        match code {
            1 => Ok(ContentDeliveryMethod::Streaming),
            2 => Ok(ContentDeliveryMethod::Progressive),
            3 => Ok(ContentDeliveryMethod::Download),
            _ => Err(Error::domain(code as i64, "one of: 1, 2, 3")),
        }
    }
}

impl Codec for ContentDeliveryMethod {
    type Model = ContentDeliveryMethod;

    open spec fn model(&self) -> ContentDeliveryMethod {
        *self
    }

    open spec fn valid(m: ContentDeliveryMethod) -> bool {
        true
    }

    open spec fn current(m: ContentDeliveryMethod) -> bool {
        true
    }

    open spec fn encoded(m: ContentDeliveryMethod) -> Json {
        <i32 as Codec>::encoded(m.code())
    }

    open spec fn decoded(json: Json) -> Result<ContentDeliveryMethod, ErrorView> {
        match <i32 as Codec>::decoded(json) {
            Ok(code) => ContentDeliveryMethod::of_code(code),
            Err(e) => Err(e),
        }
    }

    fn to_value(&self) -> (value: Value) {
        self.serialize().to_value()
    }

    fn from_value(value: &Value) -> (r: Result<ContentDeliveryMethod, Error>) {
        match <i32 as Codec>::from_value(value) {
            Ok(code) => ContentDeliveryMethod::deserialize(code),
            Err(e) => Err(e),
        }
    }

    proof fn round_trip(m: ContentDeliveryMethod) {
    }

    proof fn decoded_valid(json: Json) {
    }
}

} // verus!
