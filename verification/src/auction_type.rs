//! The auction type of a bid request or a deal: two named kinds, and a range of numbers
//! that is left to the exchange.

use vstd::prelude::*;
use serde_json::Value;
use crate::codec::Codec;
use crate::error::{Error, ErrorView};
use crate::json::Json;

verus! {

/// Auction type, where 1 = First Price, 2 = Second Price Plus. Exchange-specific auction
/// types can be defined using values greater than 500.
#[derive(Clone, Copy, Debug, PartialEq, Eq, Structural)]
pub enum AuctionType {
    FirstPrice,
    SecondPricePlus,
    /// An auction type of the exchange's own. The number is greater than 500.
    ExchangeSpecific(i32),
}

impl AuctionType {
    /// Whether the value keeps to its domain: the number of an exchange-specific type is
    /// greater than 500. To encode any other value breaks the caller's side of the
    /// contract.
    pub open spec fn valid(self) -> bool {
        self matches AuctionType::ExchangeSpecific(v) ==> v > 500
    }

    /// The number that stands for this value on the wire.
    pub open spec fn code(self) -> i32 {
        match self {
            AuctionType::FirstPrice => 1,
            AuctionType::SecondPricePlus => 2,
            AuctionType::ExchangeSpecific(v) => v,
        }
    }

    /// The value that `code` stands for: the named kinds first, then the range of the
    /// exchange, else an error.
    pub open spec fn of_code(code: i32) -> Result<AuctionType, ErrorView> {
        if code == 1 {
            Ok(AuctionType::FirstPrice)
        } else if code == 2 {
            Ok(AuctionType::SecondPricePlus)
        } else if code > 500 {
            Ok(AuctionType::ExchangeSpecific(code))
        } else {
            Err(ErrorView::domain(code as i64, "1 or 2 or greater than 500"@))
        }
    }

    /// Whether this is the default, second price plus.
    pub fn is_default(&self) -> (r: bool)
        ensures
            r == (*self == AuctionType::SecondPricePlus),
    {
        match self {
            AuctionType::SecondPricePlus => true,
            _ => false,
        }
    }

    /// The number that stands for this value on the wire. A valid value is read back from
    /// it.
    pub fn serialize(&self) -> (code: i32)
        ensures
            code == self.code(),
            self.valid() ==> AuctionType::of_code(code) == Ok::<AuctionType, ErrorView>(*self),
    {
        match self {
            AuctionType::FirstPrice => 1,
            AuctionType::SecondPricePlus => 2,
            AuctionType::ExchangeSpecific(v) => *v,
        }
    }

    /// The value that `code` stands for: first price for 1, second price plus for 2, an
    /// exchange-specific type for a number greater than 500, and for every other number
    /// an error that names it. A value that is returned is valid and stands for `code`.
    pub fn deserialize(code: i32) -> (r: Result<AuctionType, Error>)
        ensures
            match (r, AuctionType::of_code(code)) {
                (Ok(x), Ok(m)) => x == m,
                (Err(e), Err(f)) => e@ == f,
                _ => false,
            },
            r matches Ok(x) ==> x.valid() && x.code() == code,
    {
        if code == 1 {
            Ok(AuctionType::FirstPrice)
        } else if code == 2 {
            Ok(AuctionType::SecondPricePlus)
        } else if code > 500 {
            Ok(AuctionType::ExchangeSpecific(code))
        } else {
            Err(Error::domain(code as i64, "1 or 2 or greater than 500"))
        }
    }
}

impl Default for AuctionType {
    /// Second price plus.
    fn default() -> (r: AuctionType)
        ensures
            r == AuctionType::SecondPricePlus,
    {
        AuctionType::SecondPricePlus
    }
}

impl Codec for AuctionType {
    type Model = AuctionType;

    open spec fn model(&self) -> AuctionType {
        *self
    }

    open spec fn valid(m: AuctionType) -> bool {
        m.valid()
    }

    open spec fn current(m: AuctionType) -> bool {
        true
    }

    open spec fn encoded(m: AuctionType) -> Json {
        <i32 as Codec>::encoded(m.code())
    }

    open spec fn decoded(json: Json) -> Result<AuctionType, ErrorView> {
        match <i32 as Codec>::decoded(json) {
            Ok(code) => AuctionType::of_code(code),
            Err(e) => Err(e),
        }
    }

    fn to_value(&self) -> (value: Value) {
        self.serialize().to_value()
    }

    fn from_value(value: &Value) -> (r: Result<AuctionType, Error>) {
        match <i32 as Codec>::from_value(value) {
            Ok(code) => AuctionType::deserialize(code),
            Err(e) => Err(e),
        }
    }

    proof fn round_trip(m: AuctionType) {
    }

    proof fn decoded_valid(json: Json) {
    }
}

/// Where the value is no integer of 32 bits, the error of reading the integer is the
/// error of reading the auction type.
pub proof fn no_integer_is_refused(json: Json)
    requires
        <i32 as Codec>::decoded(json) is Err,
    ensures
        <AuctionType as Codec>::decoded(json) == Err::<AuctionType, ErrorView>(
            <i32 as Codec>::decoded(json)->Err_0,
        ),
{
}

} // verus!
