//! Loss Reason Codes: the codes of list 5.25 of OpenRTB 2.5.

use vstd::prelude::*;
use serde_json::Value;
use crate::codec::Codec;
use crate::error::{Error, ErrorView};
use crate::json::Json;

verus! {

/// Loss Reason Codes (OpenRTB 2.5, list 5.25).
///
/// The following table lists the options for an exchange to inform a bidder as to the reason
/// why they did not win an impression.
#[allow(non_camel_case_types)]
#[derive(Clone, Copy, Debug, PartialEq, Eq, Structural)]
pub enum LossReason {
    /// Bid Won
    BidWon,
    /// Internal Error
    InternalError,
    /// Impression Opportunity Expired
    ImpressionOpportunityExpired,
    /// Invalid Bid Response
    InvalidBidResponse,
    /// Invalid Deal ID
    InvalidDealId,
    /// Invalid Auction ID
    InvalidAuctionId,
    /// Invalid (i.e., malformed) Advertiser Domain
    InvalidAdvertiserDomain,
    /// Missing Markup
    MissingMarkup,
    /// Missing Creative ID
    MissingCreativeId,
    /// Missing Bid Price
    MissingBidPrice,
    /// Missing Minimum Creative Approval Data
    MissingMinCreativeApprovalData,
    /// Bid was Below Auction Floor
    BidBelowAuctionFloor,
    /// Bid was Below Deal Floor
    BidBelowDealFloor,
    /// Lost to Higher Bid
    LostHigherBid,
    /// Lost to a Bid for a PMP Deal
    LostPmpDeal,
    /// Buyer Seat Blocked
    BuyerSeatBlocked,
    /// Creative Filtered - General; reason unknown.
    CreativeFiltered_General,
    /// Creative Filtered - Pending processing by Exchange (e.g., approval, transcoding, etc.)
    CreativeFiltered_Pending,
    /// Creative Filtered - Disapproved by Exchange
    CreativeFiltered_Disapproved,
    /// Creative Filtered - Size Not Allowed
    CreativeFiltered_SizeNotAllowed,
    /// Creative Filtered - Incorrect Creative Format
    CreativeFiltered_IncorrectFormat,
    /// Creative Filtered - Advertiser Exclusions
    CreativeFiltered_AdvertiserExclusions,
    /// Creative Filtered - App Bundle Exclusions
    CreativeFiltered_AppBundleExclusions,
    /// Creative Filtered - Not Secure
    CreativeFiltered_NotSecure,
    /// Creative Filtered - Language Exclusions
    CreativeFiltered_LanguageExclusions,
    /// Creative Filtered - Category Exclusions
    CreativeFiltered_CategoryExclusions,
    /// Creative Filtered - Creative Attribute Exclusions
    CreativeFiltered_AttributeExclusions,
    /// Creative Filtered - Ad Type Exclusions
    CreativeFiltered_AdTypeExclusions,
    /// Creative Filtered - Animation Too Long
    CreativeFiltered_AnimationTooLong,
    /// Creative Filtered - Not Allowed in PMP Deal
    CreativeFiltered_NotAllowedPmpDeal,
}

impl LossReason {
    /// The number that stands for this variant on the wire.
    pub open spec fn code(self) -> i32 {
        match self {
            LossReason::BidWon => 0,
            LossReason::InternalError => 1,
            LossReason::ImpressionOpportunityExpired => 2,
            LossReason::InvalidBidResponse => 3,
            LossReason::InvalidDealId => 4,
            LossReason::InvalidAuctionId => 5,
            LossReason::InvalidAdvertiserDomain => 6,
            LossReason::MissingMarkup => 7,
            LossReason::MissingCreativeId => 8,
            LossReason::MissingBidPrice => 9,
            LossReason::MissingMinCreativeApprovalData => 10,
            LossReason::BidBelowAuctionFloor => 100,
            LossReason::BidBelowDealFloor => 101,
            LossReason::LostHigherBid => 102,
            LossReason::LostPmpDeal => 103,
            LossReason::BuyerSeatBlocked => 104,
            LossReason::CreativeFiltered_General => 200,
            LossReason::CreativeFiltered_Pending => 201,
            LossReason::CreativeFiltered_Disapproved => 202,
            LossReason::CreativeFiltered_SizeNotAllowed => 203,
            LossReason::CreativeFiltered_IncorrectFormat => 204,
            LossReason::CreativeFiltered_AdvertiserExclusions => 205,
            LossReason::CreativeFiltered_AppBundleExclusions => 206,
            LossReason::CreativeFiltered_NotSecure => 207,
            LossReason::CreativeFiltered_LanguageExclusions => 208,
            LossReason::CreativeFiltered_CategoryExclusions => 209,
            LossReason::CreativeFiltered_AttributeExclusions => 210,
            LossReason::CreativeFiltered_AdTypeExclusions => 211,
            LossReason::CreativeFiltered_AnimationTooLong => 212,
            LossReason::CreativeFiltered_NotAllowedPmpDeal => 213,
        }
    }

    /// The variant that `code` stands for, or the error for a number outside the list.
    pub open spec fn of_code(code: i32) -> Result<LossReason, ErrorView> {
        if code == 0 {
            Ok(LossReason::BidWon)
        } else if code == 1 {
            Ok(LossReason::InternalError)
        } else if code == 2 {
            Ok(LossReason::ImpressionOpportunityExpired)
        } else if code == 3 {
            Ok(LossReason::InvalidBidResponse)
        } else if code == 4 {
            Ok(LossReason::InvalidDealId)
        } else if code == 5 {
            Ok(LossReason::InvalidAuctionId)
        } else if code == 6 {
            Ok(LossReason::InvalidAdvertiserDomain)
        } else if code == 7 {
            Ok(LossReason::MissingMarkup)
        } else if code == 8 {
            Ok(LossReason::MissingCreativeId)
        } else if code == 9 {
            Ok(LossReason::MissingBidPrice)
        } else if code == 10 {
            Ok(LossReason::MissingMinCreativeApprovalData)
        } else if code == 100 {
            Ok(LossReason::BidBelowAuctionFloor)
        } else if code == 101 {
            Ok(LossReason::BidBelowDealFloor)
        } else if code == 102 {
            Ok(LossReason::LostHigherBid)
        } else if code == 103 {
            Ok(LossReason::LostPmpDeal)
        } else if code == 104 {
            Ok(LossReason::BuyerSeatBlocked)
        } else if code == 200 {
            Ok(LossReason::CreativeFiltered_General)
        } else if code == 201 {
            Ok(LossReason::CreativeFiltered_Pending)
        } else if code == 202 {
            Ok(LossReason::CreativeFiltered_Disapproved)
        } else if code == 203 {
            Ok(LossReason::CreativeFiltered_SizeNotAllowed)
        } else if code == 204 {
            Ok(LossReason::CreativeFiltered_IncorrectFormat)
        } else if code == 205 {
            Ok(LossReason::CreativeFiltered_AdvertiserExclusions)
        } else if code == 206 {
            Ok(LossReason::CreativeFiltered_AppBundleExclusions)
        } else if code == 207 {
            Ok(LossReason::CreativeFiltered_NotSecure)
        } else if code == 208 {
            Ok(LossReason::CreativeFiltered_LanguageExclusions)
        } else if code == 209 {
            Ok(LossReason::CreativeFiltered_CategoryExclusions)
        } else if code == 210 {
            Ok(LossReason::CreativeFiltered_AttributeExclusions)
        } else if code == 211 {
            Ok(LossReason::CreativeFiltered_AdTypeExclusions)
        } else if code == 212 {
            Ok(LossReason::CreativeFiltered_AnimationTooLong)
        } else if code == 213 {
            Ok(LossReason::CreativeFiltered_NotAllowedPmpDeal)
        } else {
            Err(
                ErrorView::domain(
                    code as i64,
                    "one of: 0, 1, 2, 3, 4, 5, 6, 7, 8, 9, 10, 100, 101, 102, 103, 104, 200, 201, 202, 203, 204, 205, 206, 207, 208, 209, 210, 211, 212, 213"@,
                ),
            )
        }
    }

    /// The number that stands for this variant on the wire. It is read back as the same
    /// variant.
    pub fn serialize(&self) -> (code: i32)
        ensures
            code == self.code(),
            LossReason::of_code(code) == Ok::<LossReason, ErrorView>(*self),
    {
        match self {
            LossReason::BidWon => 0,
            LossReason::InternalError => 1,
            LossReason::ImpressionOpportunityExpired => 2,
            LossReason::InvalidBidResponse => 3,
            LossReason::InvalidDealId => 4,
            LossReason::InvalidAuctionId => 5,
            LossReason::InvalidAdvertiserDomain => 6,
            LossReason::MissingMarkup => 7,
            LossReason::MissingCreativeId => 8,
            LossReason::MissingBidPrice => 9,
            LossReason::MissingMinCreativeApprovalData => 10,
            LossReason::BidBelowAuctionFloor => 100,
            LossReason::BidBelowDealFloor => 101,
            LossReason::LostHigherBid => 102,
            LossReason::LostPmpDeal => 103,
            LossReason::BuyerSeatBlocked => 104,
            LossReason::CreativeFiltered_General => 200,
            LossReason::CreativeFiltered_Pending => 201,
            LossReason::CreativeFiltered_Disapproved => 202,
            LossReason::CreativeFiltered_SizeNotAllowed => 203,
            LossReason::CreativeFiltered_IncorrectFormat => 204,
            LossReason::CreativeFiltered_AdvertiserExclusions => 205,
            LossReason::CreativeFiltered_AppBundleExclusions => 206,
            LossReason::CreativeFiltered_NotSecure => 207,
            LossReason::CreativeFiltered_LanguageExclusions => 208,
            LossReason::CreativeFiltered_CategoryExclusions => 209,
            LossReason::CreativeFiltered_AttributeExclusions => 210,
            LossReason::CreativeFiltered_AdTypeExclusions => 211,
            LossReason::CreativeFiltered_AnimationTooLong => 212,
            LossReason::CreativeFiltered_NotAllowedPmpDeal => 213,
        }
    }

    /// The variant that `code` stands for. A number outside the list is an error that
    /// names it; a variant that is returned stands for `code`.
    pub fn deserialize(code: i32) -> (r: Result<LossReason, Error>)
        ensures
            match (r, LossReason::of_code(code)) {
                (Ok(x), Ok(m)) => x == m,
                (Err(e), Err(f)) => e@ == f,
                _ => false,
            },
            r matches Ok(x) ==> x.code() == code,
    {
        match code {
            0 => Ok(LossReason::BidWon),
            1 => Ok(LossReason::InternalError),
            2 => Ok(LossReason::ImpressionOpportunityExpired),
            3 => Ok(LossReason::InvalidBidResponse),
            4 => Ok(LossReason::InvalidDealId),
            5 => Ok(LossReason::InvalidAuctionId),
            6 => Ok(LossReason::InvalidAdvertiserDomain),
            7 => Ok(LossReason::MissingMarkup),
            8 => Ok(LossReason::MissingCreativeId),
            9 => Ok(LossReason::MissingBidPrice),
            10 => Ok(LossReason::MissingMinCreativeApprovalData),
            100 => Ok(LossReason::BidBelowAuctionFloor),
            101 => Ok(LossReason::BidBelowDealFloor),
            102 => Ok(LossReason::LostHigherBid),
            103 => Ok(LossReason::LostPmpDeal),
            104 => Ok(LossReason::BuyerSeatBlocked),
            200 => Ok(LossReason::CreativeFiltered_General),
            201 => Ok(LossReason::CreativeFiltered_Pending),
            202 => Ok(LossReason::CreativeFiltered_Disapproved),
            203 => Ok(LossReason::CreativeFiltered_SizeNotAllowed),
            204 => Ok(LossReason::CreativeFiltered_IncorrectFormat),
            205 => Ok(LossReason::CreativeFiltered_AdvertiserExclusions),
            206 => Ok(LossReason::CreativeFiltered_AppBundleExclusions),
            207 => Ok(LossReason::CreativeFiltered_NotSecure),
            208 => Ok(LossReason::CreativeFiltered_LanguageExclusions),
            209 => Ok(LossReason::CreativeFiltered_CategoryExclusions),
            210 => Ok(LossReason::CreativeFiltered_AttributeExclusions),
            211 => Ok(LossReason::CreativeFiltered_AdTypeExclusions),
            212 => Ok(LossReason::CreativeFiltered_AnimationTooLong),
            213 => Ok(LossReason::CreativeFiltered_NotAllowedPmpDeal),
            _ => Err(
                Error::domain(
                    code as i64,
                    "one of: 0, 1, 2, 3, 4, 5, 6, 7, 8, 9, 10, 100, 101, 102, 103, 104, 200, 201, 202, 203, 204, 205, 206, 207, 208, 209, 210, 211, 212, 213",
                ),
            ),
        }
    }
}

impl Codec for LossReason {
    type Model = LossReason;

    open spec fn model(&self) -> LossReason {
        *self
    }

    open spec fn valid(m: LossReason) -> bool {
        true
    }

    open spec fn current(m: LossReason) -> bool {
        true
    }

    open spec fn encoded(m: LossReason) -> Json {
        <i32 as Codec>::encoded(m.code())
    }

    open spec fn decoded(json: Json) -> Result<LossReason, ErrorView> {
        match <i32 as Codec>::decoded(json) {
            Ok(code) => LossReason::of_code(code),
            Err(e) => Err(e),
        }
    }

    fn to_value(&self) -> (value: Value) {
        self.serialize().to_value()
    }

    fn from_value(value: &Value) -> (r: Result<LossReason, Error>) {
        match <i32 as Codec>::from_value(value) {
            Ok(code) => LossReason::deserialize(code),
            Err(e) => Err(e),
        }
    }

    proof fn round_trip(m: LossReason) {
    }

    proof fn decoded_valid(json: Json) {
    }
}

} // verus!
