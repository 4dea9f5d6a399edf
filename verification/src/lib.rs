//! A typed model of the OpenRTB 2.5 real-time-bidding protocol, with a verified JSON codec.
//!
//! Every object and every list of codes of OpenRTB 2.5 has a type here. Each type
//! implements [`Codec`]: it is encoded to a `serde_json::Value` and decoded from one, and
//! what the two functions return is stated over [`json::Json`], the model of a JSON
//! document, and proved. [`from_str`] and [`to_string`] do the same from and to text.
//!
//! For every type it is proved that decoding what a valid value was encoded to yields the
//! value again, and that decoding yields valid values.
//!
//! Where the wire does not hold a value as it stands, a rule of its own applies: a flag is
//! written as 0 or 1 ([`i32_as_bool`]), an entry of a list as its number, a category and a
//! gender as a text, an auction type, a start delay and an extended duration as a number
//! that is a name in one part of its range and a quantity in another, and the channel of a
//! bid request as the member `site` or the member `app`. A member that has its default
//! value is not written, nor is a deprecated one.
//!
//! Prices and coordinates are kept as `serde_json::Number`, as they stand in the document.

// The codec.
pub mod codec;
pub mod error;
pub mod json;
pub mod text;
pub mod value;
pub mod i32_as_bool;
pub mod i32_as_opt_bool;

// The objects of a bid request.
pub mod bid_request;
pub mod source;
pub mod regs;
pub mod imp;
pub mod metric;
pub mod banner;
pub mod video;
pub mod audio;
pub mod native;
pub mod format;
pub mod pmp;
pub mod deal;
pub mod site;
pub mod app;
pub mod publisher;
pub mod content;
pub mod producer;
pub mod device;
pub mod geo;
pub mod user;
pub mod data;
pub mod segment;

// The objects of a bid response.
pub mod bid_response;
pub mod seat_bid;
pub mod bid;

// The lists of codes.
pub mod content_category;
pub mod banner_ad_type;
pub mod creative_attribute;
pub mod ad_position;
pub mod expandable_direction;
pub mod api_framework;
pub mod video_linearity;
pub mod protocol;
pub mod video_placement_type;
pub mod playback_method;
pub mod playback_cessation_mode;
pub mod start_delay;
pub mod production_quality;
pub mod companion_type;
pub mod content_delivery_method;
pub mod feed_type;
pub mod volume_normalization_mode;
pub mod content_context;
pub mod iqg_media_rating;
pub mod location_type;
pub mod device_type;
pub mod connection_type;
pub mod ip_location_service;
pub mod no_bid_reason;
pub mod loss_reason;

// Other values of fields.
pub mod distribution_channel;
pub mod auction_type;
pub mod gender;
pub mod max_extended_ad_duration;

pub use crate::codec::{Codec, from_str, to_string};
pub use crate::error::{Error, ErrorKind, ErrorView, Found, FoundView, Step, StepView};
pub use crate::ad_position::AdPosition;
pub use crate::api_framework::ApiFramework;
pub use crate::app::{App, AppView};
pub use crate::auction_type::AuctionType;
pub use crate::audio::{Audio, AudioView};
pub use crate::banner::{Banner, BannerView};
pub use crate::banner_ad_type::BannerAdType;
pub use crate::bid::{Bid, BidView};
pub use crate::bid_request::{BidRequest, BidRequestView};
pub use crate::bid_response::{BidResponse, BidResponseView};
pub use crate::companion_type::CompanionType;
pub use crate::connection_type::ConnectionType;
pub use crate::content::{Content, ContentView};
pub use crate::content_category::ContentCategory;
pub use crate::content_context::ContentContext;
pub use crate::content_delivery_method::ContentDeliveryMethod;
pub use crate::creative_attribute::CreativeAttribute;
pub use crate::data::{Data, DataView};
pub use crate::deal::{Deal, DealView};
pub use crate::device::{Device, DeviceView};
pub use crate::device_type::DeviceType;
pub use crate::distribution_channel::{DistributionChannel, DistributionChannelView};
pub use crate::expandable_direction::ExpandableDirection;
pub use crate::feed_type::FeedType;
pub use crate::format::{Format, FormatView};
pub use crate::gender::Gender;
pub use crate::geo::{Geo, GeoView};
pub use crate::imp::{Imp, ImpView};
pub use crate::ip_location_service::IpLocationService;
pub use crate::iqg_media_rating::IqgMediaRating;
pub use crate::location_type::LocationType;
pub use crate::loss_reason::LossReason;
pub use crate::max_extended_ad_duration::MaxExtendedAdDuration;
pub use crate::metric::{Metric, MetricView};
pub use crate::native::{Native, NativeView};
pub use crate::no_bid_reason::NoBidReason;
pub use crate::playback_cessation_mode::PlaybackCessationMode;
pub use crate::playback_method::PlaybackMethod;
pub use crate::pmp::{Pmp, PmpView};
pub use crate::producer::{Producer, ProducerView};
pub use crate::production_quality::ProductionQuality;
pub use crate::protocol::Protocol;
pub use crate::publisher::{Publisher, PublisherView};
pub use crate::regs::{Regs, RegsView};
pub use crate::seat_bid::{SeatBid, SeatBidView};
pub use crate::segment::{Segment, SegmentView};
pub use crate::site::{Site, SiteView};
pub use crate::source::{Source, SourceView};
pub use crate::start_delay::StartDelay;
pub use crate::user::{User, UserView};
pub use crate::video::{Video, VideoView};
pub use crate::video_linearity::VideoLinearity;
pub use crate::video_placement_type::VideoPlacementType;
pub use crate::volume_normalization_mode::VolumeNormalizationMode;
