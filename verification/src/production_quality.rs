//! Production Quality: the codes of list 5.13 of OpenRTB 2.5.

use vstd::prelude::*;
use serde_json::Value;
use crate::codec::Codec;
use crate::error::{Error, ErrorView};
use crate::json::Json;

verus! {

/// Production Quality (OpenRTB 2.5, list 5.13).
///
/// The following table lists the options for content quality. These values are defined by the
/// IAB; refer to www.iab.com/wp-content/uploads/2015/03/long-form-video-final.pdf for more
/// information.
#[derive(Clone, Copy, Debug, PartialEq, Eq, Structural)]
pub enum ProductionQuality {
    /// Unknown
    Unknown,
    /// Professionally Produced
    Professional,
    /// Prosumer
    Prosumer,
    /// User Generated (UGC)
    UserGenerated,
}

impl ProductionQuality {
    /// The number that stands for this variant on the wire.
    pub open spec fn code(self) -> i32 {
        match self {
            ProductionQuality::Unknown => 0,
            ProductionQuality::Professional => 1,
            ProductionQuality::Prosumer => 2,
            ProductionQuality::UserGenerated => 3,
        }
    }

    /// The variant that `code` stands for, or the error for a number outside the list.
    pub open spec fn of_code(code: i32) -> Result<ProductionQuality, ErrorView> {
        if code == 0 {
            Ok(ProductionQuality::Unknown)
        } else if code == 1 {
            Ok(ProductionQuality::Professional)
        } else if code == 2 {
            Ok(ProductionQuality::Prosumer)
        } else if code == 3 {
            Ok(ProductionQuality::UserGenerated)
        } else {
            Err(ErrorView::domain(code as i64, "one of: 0, 1, 2, 3"@))
        }
    }

    /// The number that stands for this variant on the wire. It is read back as the same
    /// variant.
    pub fn serialize(&self) -> (code: i32)
        ensures
            code == self.code(),
            ProductionQuality::of_code(code) == Ok::<ProductionQuality, ErrorView>(*self),
    {
        match self {
            ProductionQuality::Unknown => 0,
            ProductionQuality::Professional => 1,
            ProductionQuality::Prosumer => 2,
            ProductionQuality::UserGenerated => 3,
        }
    }

    /// The variant that `code` stands for. A number outside the list is an error that
    /// names it; a variant that is returned stands for `code`.
    pub fn deserialize(code: i32) -> (r: Result<ProductionQuality, Error>)
        ensures
            match (r, ProductionQuality::of_code(code)) {
                (Ok(x), Ok(m)) => x == m,
                (Err(e), Err(f)) => e@ == f,
                _ => false,
            },
            r matches Ok(x) ==> x.code() == code,
    {
        match code {
            0 => Ok(ProductionQuality::Unknown),
            1 => Ok(ProductionQuality::Professional),
            2 => Ok(ProductionQuality::Prosumer),
            3 => Ok(ProductionQuality::UserGenerated),
            _ => Err(Error::domain(code as i64, "one of: 0, 1, 2, 3")),
        }
    }
}

impl Codec for ProductionQuality {
    type Model = ProductionQuality;

    open spec fn model(&self) -> ProductionQuality {
        *self
    }

    open spec fn valid(m: ProductionQuality) -> bool {
        true
    }

    open spec fn current(m: ProductionQuality) -> bool {
        true
    }

    open spec fn encoded(m: ProductionQuality) -> Json {
        <i32 as Codec>::encoded(m.code())
    }

    open spec fn decoded(json: Json) -> Result<ProductionQuality, ErrorView> {
        match <i32 as Codec>::decoded(json) {
            Ok(code) => ProductionQuality::of_code(code),
            Err(e) => Err(e),
        }
    }

    fn to_value(&self) -> (value: Value) {
        self.serialize().to_value()
    }

    fn from_value(value: &Value) -> (r: Result<ProductionQuality, Error>) {
        match <i32 as Codec>::from_value(value) {
            Ok(code) => ProductionQuality::deserialize(code),
            Err(e) => Err(e),
        }
    }

    proof fn round_trip(m: ProductionQuality) {
    }

    proof fn decoded_valid(json: Json) {
    }
}

} // verus!
