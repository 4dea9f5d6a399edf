//! No-Bid Reason Codes: the codes of list 5.24 of OpenRTB 2.5.

use vstd::prelude::*;
use serde_json::Value;
use crate::codec::Codec;
use crate::error::{Error, ErrorView};
use crate::json::Json;

verus! {

/// No-Bid Reason Codes (OpenRTB 2.5, list 5.24).
///
/// The following table lists the options for a bidder to signal the exchange as to why it did
/// not offer a bid for the impression.
#[derive(Clone, Copy, Debug, PartialEq, Eq, Structural)]
pub enum NoBidReason {
    /// Unknown Error
    UnknownError,
    /// Technical Error
    TechnicalError,
    /// Invalid Request
    InvalidRequest,
    /// Known Web Spider
    KnownWebSpider,
    /// Suspected Non-Human Traffic
    SuspectedNonHumanTraffic,
    /// Cloud, Data center, or Proxy IP
    CloudDataCenterProxyIp,
    /// Unsupported Device
    UnsupportedDevice,
    /// Blocked Publisher or Site
    BlockedPublisher,
    /// Unmatched User
    UnmatchedUser,
    /// Daily Reader Cap Met
    DailyReaderCap,
    /// Daily Domain Cap Met
    DailyDomainCap,
}

impl NoBidReason {
    /// The number that stands for this variant on the wire.
    pub open spec fn code(self) -> i32 {
        match self {
            NoBidReason::UnknownError => 0,
            NoBidReason::TechnicalError => 1,
            NoBidReason::InvalidRequest => 2,
            NoBidReason::KnownWebSpider => 3,
            NoBidReason::SuspectedNonHumanTraffic => 4,
            NoBidReason::CloudDataCenterProxyIp => 5,
            NoBidReason::UnsupportedDevice => 6,
            NoBidReason::BlockedPublisher => 7,
            NoBidReason::UnmatchedUser => 8,
            NoBidReason::DailyReaderCap => 9,
            NoBidReason::DailyDomainCap => 10,
        }
    }

    /// The variant that `code` stands for, or the error for a number outside the list.
    pub open spec fn of_code(code: i32) -> Result<NoBidReason, ErrorView> {
        if code == 0 {
            Ok(NoBidReason::UnknownError)
        } else if code == 1 {
            Ok(NoBidReason::TechnicalError)
        } else if code == 2 {
            Ok(NoBidReason::InvalidRequest)
        } else if code == 3 {
            Ok(NoBidReason::KnownWebSpider)
        } else if code == 4 {
            Ok(NoBidReason::SuspectedNonHumanTraffic)
        } else if code == 5 {
            Ok(NoBidReason::CloudDataCenterProxyIp)
        } else if code == 6 {
            Ok(NoBidReason::UnsupportedDevice)
        } else if code == 7 {
            Ok(NoBidReason::BlockedPublisher)
        } else if code == 8 {
            Ok(NoBidReason::UnmatchedUser)
        } else if code == 9 {
            Ok(NoBidReason::DailyReaderCap)
        } else if code == 10 {
            Ok(NoBidReason::DailyDomainCap)
        } else {
            Err(ErrorView::domain(code as i64, "one of: 0, 1, 2, 3, 4, 5, 6, 7, 8, 9, 10"@))
        }
    }

    /// The number that stands for this variant on the wire. It is read back as the same
    /// variant.
    pub fn serialize(&self) -> (code: i32)
        ensures
            code == self.code(),
            NoBidReason::of_code(code) == Ok::<NoBidReason, ErrorView>(*self),
    {
        match self {
            NoBidReason::UnknownError => 0,
            NoBidReason::TechnicalError => 1,
            NoBidReason::InvalidRequest => 2,
            NoBidReason::KnownWebSpider => 3,
            NoBidReason::SuspectedNonHumanTraffic => 4,
            NoBidReason::CloudDataCenterProxyIp => 5,
            NoBidReason::UnsupportedDevice => 6,
            NoBidReason::BlockedPublisher => 7,
            NoBidReason::UnmatchedUser => 8,
            NoBidReason::DailyReaderCap => 9,
            NoBidReason::DailyDomainCap => 10,
        }
    }

    /// The variant that `code` stands for. A number outside the list is an error that
    /// names it; a variant that is returned stands for `code`.
    pub fn deserialize(code: i32) -> (r: Result<NoBidReason, Error>)
        ensures
            match (r, NoBidReason::of_code(code)) {
                (Ok(x), Ok(m)) => x == m,
                (Err(e), Err(f)) => e@ == f,
                _ => false,
            },
            r matches Ok(x) ==> x.code() == code,
    {
        match code {
            0 => Ok(NoBidReason::UnknownError),
            1 => Ok(NoBidReason::TechnicalError),
            2 => Ok(NoBidReason::InvalidRequest),
            3 => Ok(NoBidReason::KnownWebSpider),
            4 => Ok(NoBidReason::SuspectedNonHumanTraffic),
            5 => Ok(NoBidReason::CloudDataCenterProxyIp),
            6 => Ok(NoBidReason::UnsupportedDevice),
            7 => Ok(NoBidReason::BlockedPublisher),
            8 => Ok(NoBidReason::UnmatchedUser),
            9 => Ok(NoBidReason::DailyReaderCap),
            10 => Ok(NoBidReason::DailyDomainCap),
            _ => Err(Error::domain(code as i64, "one of: 0, 1, 2, 3, 4, 5, 6, 7, 8, 9, 10")),
        }
    }
}

impl Codec for NoBidReason {
    type Model = NoBidReason;

    open spec fn model(&self) -> NoBidReason {
        *self
    }

    open spec fn valid(m: NoBidReason) -> bool {
        true
    }

    open spec fn current(m: NoBidReason) -> bool {
        true
    }

    open spec fn encoded(m: NoBidReason) -> Json {
        <i32 as Codec>::encoded(m.code())
    }

    open spec fn decoded(json: Json) -> Result<NoBidReason, ErrorView> {
        match <i32 as Codec>::decoded(json) {
            Ok(code) => NoBidReason::of_code(code),
            Err(e) => Err(e),
        }
    }

    fn to_value(&self) -> (value: Value) {
        self.serialize().to_value()
    }

    fn from_value(value: &Value) -> (r: Result<NoBidReason, Error>) {
        match <i32 as Codec>::from_value(value) {
            Ok(code) => NoBidReason::deserialize(code),
            Err(e) => Err(e),
        }
    }

    proof fn round_trip(m: NoBidReason) {
    }

    proof fn decoded_valid(json: Json) {
    }
}

} // verus!
