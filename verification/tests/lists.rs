//! The lists of codes and the other values of fields: what each is read from and written as.

use openrtb2::{
    from_str, to_string, AdPosition, ApiFramework, AuctionType, BannerAdType, Codec,
    CompanionType, ConnectionType, ContentCategory, ContentContext, ContentDeliveryMethod,
    CreativeAttribute, DeviceType, Error, ErrorKind, ExpandableDirection, FeedType, Found,
    Gender, IpLocationService, IqgMediaRating, LocationType, LossReason, MaxExtendedAdDuration,
    NoBidReason, PlaybackCessationMode, PlaybackMethod, ProductionQuality, Protocol, StartDelay,
    VideoLinearity, VideoPlacementType, VolumeNormalizationMode,
};

#[test]
fn ad_position_json() {
    assert!(from_str::<AdPosition>("-1").is_err());

    let json = "[0,1]";
    let e1: Vec<AdPosition> = from_str(json).unwrap();
    assert_eq!(e1, vec![AdPosition::Unknown, AdPosition::AboveTheFold]);
    assert_eq!(to_string(&e1), json);
}

#[test]
fn api_framework_json() {
    assert!(from_str::<ApiFramework>("-1").is_err());

    let json = "[1,2]";
    let e1: Vec<ApiFramework> = from_str(json).unwrap();
    assert_eq!(e1, vec![ApiFramework::Vpaid1, ApiFramework::Vpaid2]);
    assert_eq!(to_string(&e1), json);
}

#[test]
fn auction_type_json() {
    assert!(from_str::<AuctionType>("3").is_err());
    assert!(from_str::<AuctionType>("500").is_err());

    let json = "[1,2,501]";
    let e1: Vec<AuctionType> = from_str(json).unwrap();
    assert_eq!(to_string(&e1), json);
    assert_eq!(
        e1,
        vec![
            AuctionType::FirstPrice,
            AuctionType::SecondPricePlus,
            AuctionType::ExchangeSpecific(501)
        ]
    );
}

#[test]
fn banner_ad_type_json() {
    assert!(from_str::<BannerAdType>("-1").is_err());

    let json = "[1,2,3,4]";
    let e1: Vec<BannerAdType> = from_str(json).unwrap();
    assert_eq!(
        e1,
        vec![
            BannerAdType::XhtmlTextAd,
            BannerAdType::XhtmlBannerAd,
            BannerAdType::JavaScriptAd,
            BannerAdType::Iframe,
        ]
    );
    assert_eq!(to_string(&e1), json);
}

#[test]
fn companion_type_json() {
    assert!(from_str::<CompanionType>("-1").is_err());

    let json = "[1,2]";
    let e1: Vec<CompanionType> = from_str(json).unwrap();
    assert_eq!(e1, vec![CompanionType::Static, CompanionType::Html]);
    assert_eq!(to_string(&e1), json);
}

#[test]
fn connection_type_json() {
    assert!(from_str::<ConnectionType>("-1").is_err());

    let json = "[0,1]";
    let e1: Vec<ConnectionType> = from_str(json).unwrap();
    assert_eq!(e1, vec![ConnectionType::Unknown, ConnectionType::Ethernet]);
    assert_eq!(to_string(&e1), json);
}

#[test]
fn content_category_json() {
    assert!(from_str::<ContentCategory>("IAB").is_err());

    let json = r#"["IAB1","IAB1-1"]"#;
    let e1: Vec<ContentCategory> = from_str(json).unwrap();
    assert_eq!(e1, vec![ContentCategory::Iab1, ContentCategory::Iab1_1]);
    assert_eq!(to_string(&e1), json);
}

#[test]
fn content_context_json() {
    assert!(from_str::<ContentContext>("-1").is_err());

    let json = "[1,2]";
    let e1: Vec<ContentContext> = from_str(json).unwrap();
    assert_eq!(e1, vec![ContentContext::Video, ContentContext::Game]);
    assert_eq!(to_string(&e1), json);
}

#[test]
fn content_delivery_method_json() {
    assert!(from_str::<ContentDeliveryMethod>("-1").is_err());

    let json = "[1,2]";
    let e1: Vec<ContentDeliveryMethod> = from_str(json).unwrap();
    assert_eq!(
        e1,
        vec![
            ContentDeliveryMethod::Streaming,
            ContentDeliveryMethod::Progressive
        ]
    );
    assert_eq!(to_string(&e1), json);
}

#[test]
fn creative_attribute_json() {
    assert!(from_str::<CreativeAttribute>("-1").is_err());

    let json = "[1,2]";
    let e1: Vec<CreativeAttribute> = from_str(json).unwrap();
    assert_eq!(
        e1,
        vec![
            CreativeAttribute::AudioAd_AutoPlay,
            CreativeAttribute::AudioAd_UserInitiated
        ]
    );
    assert_eq!(to_string(&e1), json);
}

#[test]
fn device_type_json() {
    assert!(from_str::<DeviceType>("-1").is_err());

    let json = "[1,2]";
    let e1: Vec<DeviceType> = from_str(json).unwrap();
    assert_eq!(e1, vec![DeviceType::Mobile, DeviceType::PersonalComputer]);
    assert_eq!(to_string(&e1), json);
}

#[test]
fn expandable_direction_json() {
    assert!(from_str::<ExpandableDirection>("-1").is_err());

    let json = "[1,2]";
    let e1: Vec<ExpandableDirection> = from_str(json).unwrap();
    assert_eq!(
        e1,
        vec![ExpandableDirection::Left, ExpandableDirection::Right]
    );
    assert_eq!(to_string(&e1), json);
}

#[test]
fn feed_type_json() {
    assert!(from_str::<FeedType>("-1").is_err());

    let json = "[1,2]";
    let e1: Vec<FeedType> = from_str(json).unwrap();
    assert_eq!(e1, vec![FeedType::MusicService, FeedType::Broadcast]);
    assert_eq!(to_string(&e1), json);
}

#[test]
fn gender_json() {
    assert!(from_str::<Gender>("X").is_err());

    let json = r#"["M","F","O"]"#;
    let o1: Vec<Gender> = from_str(json).unwrap();
    assert_eq!(o1, vec![Gender::Male, Gender::Female, Gender::Other]);
    assert_eq!(to_string(&o1), json);
}

#[test]
fn ip_location_service_json() {
    assert!(from_str::<IpLocationService>("-1").is_err());

    let json = "[1,2]";
    let e1: Vec<IpLocationService> = from_str(json).unwrap();
    assert_eq!(
        e1,
        vec![IpLocationService::Ip2Location, IpLocationService::Neustar]
    );
    assert_eq!(to_string(&e1), json);
}

#[test]
fn iqg_media_rating_json() {
    assert!(from_str::<IqgMediaRating>("-1").is_err());

    let json = "[1,2]";
    let e1: Vec<IqgMediaRating> = from_str(json).unwrap();
    assert_eq!(
        e1,
        vec![IqgMediaRating::AllAudiences, IqgMediaRating::EveryoneOver12]
    );
    assert_eq!(to_string(&e1), json);
}

#[test]
fn location_type_json() {
    assert!(from_str::<LocationType>("-1").is_err());

    let json = "[1,2]";
    let e1: Vec<LocationType> = from_str(json).unwrap();
    assert_eq!(e1, vec![LocationType::GpsLocation, LocationType::IpAddress]);
    assert_eq!(to_string(&e1), json);
}

#[test]
fn loss_reason_json() {
    assert!(from_str::<LossReason>("-1").is_err());

    let json = "[0,1,100,101,200,201]";
    let e1: Vec<LossReason> = from_str(json).unwrap();
    assert_eq!(
        e1,
        vec![
            LossReason::BidWon,
            LossReason::InternalError,
            LossReason::BidBelowAuctionFloor,
            LossReason::BidBelowDealFloor,
            LossReason::CreativeFiltered_General,
            LossReason::CreativeFiltered_Pending,
        ]
    );
    assert_eq!(to_string(&e1), json);
}

#[test]
fn repr() {
    assert_eq!(LossReason::BidWon.serialize(), 0);
    assert_eq!(LossReason::InternalError.serialize(), 1);
    assert_eq!(LossReason::BidBelowAuctionFloor.serialize(), 100);
    assert_eq!(LossReason::BidBelowDealFloor.serialize(), 101);
    assert_eq!(LossReason::CreativeFiltered_General.serialize(), 200);
    assert_eq!(LossReason::CreativeFiltered_Pending.serialize(), 201);
}

#[test]
fn max_extended_ad_duration_json() {
    assert!(from_str::<MaxExtendedAdDuration>("-2").is_err());

    let json = "[-1,0,1]";
    let e1: Vec<MaxExtendedAdDuration> = from_str(json).unwrap();
    assert_eq!(to_string(&e1), json);
    assert_eq!(
        e1,
        vec![
            MaxExtendedAdDuration::NoLimit,
            MaxExtendedAdDuration::NotAllowed,
            MaxExtendedAdDuration::Specific(1),
        ]
    );
}

#[test]
fn no_bid_reason_json() {
    assert!(from_str::<NoBidReason>("-1").is_err());

    let json = "[0,1]";
    let e1: Vec<NoBidReason> = from_str(json).unwrap();
    assert_eq!(
        e1,
        vec![NoBidReason::UnknownError, NoBidReason::TechnicalError]
    );
    assert_eq!(to_string(&e1), json);
}

#[test]
fn playback_cessation_mode_json() {
    assert!(from_str::<PlaybackCessationMode>("-1").is_err());

    let json = "[1,2]";
    let e1: Vec<PlaybackCessationMode> = from_str(json).unwrap();
    assert_eq!(
        e1,
        vec![
            PlaybackCessationMode::CompletionOrUser,
            PlaybackCessationMode::LeavingOrUser
        ]
    );
    assert_eq!(to_string(&e1), json);
}

#[test]
fn playback_method_json() {
    assert!(from_str::<PlaybackMethod>("-1").is_err());

    let json = "[1,2]";
    let e1: Vec<PlaybackMethod> = from_str(json).unwrap();
    assert_eq!(
        e1,
        vec![
            PlaybackMethod::AutoPlaySoundOn,
            PlaybackMethod::AutoPlaySoundOff
        ]
    );
    assert_eq!(to_string(&e1), json);
}

#[test]
fn production_quality_json() {
    assert!(from_str::<ProductionQuality>("-1").is_err());

    let json = "[0,1]";
    let e1: Vec<ProductionQuality> = from_str(json).unwrap();
    assert_eq!(
        e1,
        vec![ProductionQuality::Unknown, ProductionQuality::Professional]
    );
    assert_eq!(to_string(&e1), json);
}

#[test]
fn protocol_json() {
    assert!(from_str::<Protocol>("-1").is_err());

    let json = "[1,2]";
    let e1: Vec<Protocol> = from_str(json).unwrap();
    assert_eq!(e1, vec![Protocol::Vast1, Protocol::Vast2]);
    assert_eq!(to_string(&e1), json);
}

#[test]
fn start_delay_json() {
    assert!(from_str::<StartDelay>("-3").is_err());

    let json = "[10,0,-1,-2]";
    let delays: Vec<StartDelay> = from_str(json).unwrap();
    assert_eq!(
        delays,
        vec![
            StartDelay::MidRoll(10),
            StartDelay::PreRoll,
            StartDelay::GenericMidRoll,
            StartDelay::GenericPostRoll
        ]
    );
    assert_eq!(to_string(&delays), json);
}

#[test]
fn video_linearity_json() {
    assert!(from_str::<VideoLinearity>("-1").is_err());

    let json = "[1,2]";
    let e1: Vec<VideoLinearity> = from_str(json).unwrap();
    assert_eq!(e1, vec![VideoLinearity::Linear, VideoLinearity::NonLinear]);
    assert_eq!(to_string(&e1), json);
}

#[test]
fn video_placement_type_json() {
    assert!(from_str::<VideoPlacementType>("-1").is_err());

    let json = "[1,2]";
    let e1: Vec<VideoPlacementType> = from_str(json).unwrap();
    assert_eq!(
        e1,
        vec![VideoPlacementType::InStream, VideoPlacementType::InBanner]
    );
    assert_eq!(to_string(&e1), json);
}

#[test]
fn volume_normalization_mode_json() {
    assert!(from_str::<VolumeNormalizationMode>("-1").is_err());

    let json = "[0,1]";
    let e1: Vec<VolumeNormalizationMode> = from_str(json).unwrap();
    assert_eq!(
        e1,
        vec![
            VolumeNormalizationMode::NotNormalized,
            VolumeNormalizationMode::AverageVolume,
        ]
    );
    assert_eq!(to_string(&e1), json);
}

fn fault<T: Codec + std::fmt::Debug>(json: &str) -> Error {
    from_str::<T>(json).unwrap_err()
}

#[test]
fn start_delay_boundaries() {
    assert_eq!(StartDelay::deserialize(10), Ok(StartDelay::MidRoll(10)));
    assert_eq!(StartDelay::deserialize(1), Ok(StartDelay::MidRoll(1)));
    assert_eq!(StartDelay::deserialize(i32::MAX), Ok(StartDelay::MidRoll(i32::MAX)));
    assert_eq!(StartDelay::deserialize(0), Ok(StartDelay::PreRoll));
    assert_eq!(StartDelay::deserialize(-1), Ok(StartDelay::GenericMidRoll));
    assert_eq!(StartDelay::deserialize(-2), Ok(StartDelay::GenericPostRoll));
    for n in [-3, -4, i32::MIN] {
        let e = StartDelay::deserialize(n).unwrap_err();
        assert_eq!(e.kind, ErrorKind::Domain);
        assert_eq!(e.found, Found::Integer(n as i64));
        assert_eq!(e.expected, "0 or -1 or -2 or greater than 0");
    }
    for n in [10, 1, 0, -1, -2] {
        assert_eq!(StartDelay::deserialize(n).unwrap().serialize(), n);
    }
    assert_eq!(
        StartDelay::deserialize(-3).unwrap_err().message(),
        "invalid value: -3, expected 0 or -1 or -2 or greater than 0"
    );
}

#[test]
fn auction_type_boundaries() {
    assert_eq!(AuctionType::deserialize(1), Ok(AuctionType::FirstPrice));
    assert_eq!(AuctionType::deserialize(2), Ok(AuctionType::SecondPricePlus));
    assert_eq!(AuctionType::deserialize(501), Ok(AuctionType::ExchangeSpecific(501)));
    assert_eq!(AuctionType::deserialize(i32::MAX), Ok(AuctionType::ExchangeSpecific(i32::MAX)));
    for n in [3, 500, 0, -1, 499, i32::MIN] {
        let e = AuctionType::deserialize(n).unwrap_err();
        assert_eq!(e.kind, ErrorKind::Domain);
        assert_eq!(e.found, Found::Integer(n as i64));
        assert_eq!(e.expected, "1 or 2 or greater than 500");
    }
    for n in [1, 2, 501, 70000] {
        assert_eq!(AuctionType::deserialize(n).unwrap().serialize(), n);
    }
    assert_eq!(AuctionType::default(), AuctionType::SecondPricePlus);
    assert!(AuctionType::SecondPricePlus.is_default());
    assert!(!AuctionType::FirstPrice.is_default());
    assert!(!AuctionType::ExchangeSpecific(2).is_default());
    // A value outside the domain is written as it stands, and read as another.
    assert_eq!(AuctionType::ExchangeSpecific(2).serialize(), 2);
    assert_eq!(AuctionType::ExchangeSpecific(7).serialize(), 7);
}

#[test]
fn max_extended_ad_duration_boundaries() {
    assert_eq!(MaxExtendedAdDuration::deserialize(-1), Ok(MaxExtendedAdDuration::NoLimit));
    assert_eq!(MaxExtendedAdDuration::deserialize(0), Ok(MaxExtendedAdDuration::NotAllowed));
    assert_eq!(MaxExtendedAdDuration::deserialize(1), Ok(MaxExtendedAdDuration::Specific(1)));
    assert_eq!(MaxExtendedAdDuration::deserialize(30), Ok(MaxExtendedAdDuration::Specific(30)));
    for n in [-2, -30, i32::MIN] {
        let e = MaxExtendedAdDuration::deserialize(n).unwrap_err();
        assert_eq!(e.kind, ErrorKind::Domain);
        assert_eq!(e.found, Found::Integer(n as i64));
        assert_eq!(e.expected, "-1 or 0 or greater than 0");
    }
    for n in [-1, 0, 1, 30] {
        assert_eq!(MaxExtendedAdDuration::deserialize(n).unwrap().serialize(), n);
    }
    assert_eq!(MaxExtendedAdDuration::default(), MaxExtendedAdDuration::NotAllowed);
    assert!(MaxExtendedAdDuration::NotAllowed.is_default());
    assert!(!MaxExtendedAdDuration::NoLimit.is_default());
}

#[test]
fn closed_lists_refuse_other_numbers() {
    let e = AdPosition::deserialize(-1).unwrap_err();
    assert_eq!(e.kind, ErrorKind::Domain);
    assert_eq!(e.found, Found::Integer(-1));
    assert_eq!(e.expected, "one of: 0, 1, 2, 3, 4, 5, 6, 7");
    assert_eq!(e.message(), "invalid value: -1, expected one of: 0, 1, 2, 3, 4, 5, 6, 7");
    assert!(AdPosition::deserialize(8).is_err());
    for n in 0..8 {
        assert_eq!(AdPosition::deserialize(n).unwrap().serialize(), n);
    }
    assert_eq!(AdPosition::deserialize(2), Ok(AdPosition::LikelyBelowTheFold));

    assert!(ApiFramework::deserialize(0).is_err());
    assert!(ApiFramework::deserialize(7).is_err());
    assert_eq!(ApiFramework::deserialize(6), Ok(ApiFramework::Mraid3));
    assert_eq!(VideoLinearity::deserialize(3).unwrap_err().expected, "1 or 2");
    assert_eq!(fault::<VideoLinearity>("3").message(), "invalid value: 3, expected 1 or 2");
    assert_eq!(fault::<VideoLinearity>("\"1\"").kind, ErrorKind::Shape);
    assert_eq!(fault::<Protocol>("11").kind, ErrorKind::Domain);
    assert_eq!(fault::<Protocol>("4294967297").kind, ErrorKind::Domain);
    assert_eq!(fault::<Protocol>("4294967297").expected, "an integer of 32 bits");
}

#[test]
fn loss_reasons_restart_at_100_and_200() {
    for n in (0..=10).chain(100..=104).chain(200..=213) {
        assert_eq!(LossReason::deserialize(n).unwrap().serialize(), n);
    }
    for n in [-1, 11, 99, 105, 199, 214, 1000] {
        assert!(LossReason::deserialize(n).is_err());
    }
    assert_eq!(LossReason::deserialize(10), Ok(LossReason::MissingMinCreativeApprovalData));
    assert_eq!(LossReason::deserialize(104), Ok(LossReason::BuyerSeatBlocked));
    assert_eq!(LossReason::deserialize(213), Ok(LossReason::CreativeFiltered_NotAllowedPmpDeal));
}

#[test]
fn gender_names() {
    assert_eq!(Gender::deserialize("M"), Ok(Gender::Male));
    assert_eq!(Gender::deserialize("F"), Ok(Gender::Female));
    assert_eq!(Gender::deserialize("O"), Ok(Gender::Other));
    assert_eq!(Gender::Male.serialize(), "M");
    assert_eq!(Gender::Female.serialize(), "F");
    assert_eq!(Gender::Other.serialize(), "O");
    for text in ["", "m", "X", "MM", "M ", "Male"] {
        let e = Gender::deserialize(text).unwrap_err();
        assert_eq!(e.kind, ErrorKind::Domain);
        assert_eq!(e.found, Found::Text(text.to_owned()));
        assert_eq!(e.expected, "one of `M`, `F`, `O`");
    }
    assert_eq!(fault::<Gender>("1").kind, ErrorKind::Shape);
}

#[test]
fn content_category_names() {
    assert_eq!(ContentCategory::deserialize("IAB1"), Ok(ContentCategory::Iab1));
    assert_eq!(ContentCategory::deserialize("IAB1-1"), Ok(ContentCategory::Iab1_1));
    assert_eq!(ContentCategory::deserialize("IAB2-10"), Ok(ContentCategory::Iab2_10));
    assert_eq!(ContentCategory::deserialize("IAB7-45"), Ok(ContentCategory::Iab7_45));
    assert_eq!(ContentCategory::deserialize("IAB19-36"), Ok(ContentCategory::Iab19_36));
    assert_eq!(ContentCategory::deserialize("IAB24"), Ok(ContentCategory::Iab24));
    assert_eq!(ContentCategory::deserialize("IAB26-4"), Ok(ContentCategory::Iab26_4));
    assert_eq!(ContentCategory::Iab1.serialize(), "IAB1");
    assert_eq!(ContentCategory::Iab1_1.serialize(), "IAB1-1");
    assert_eq!(ContentCategory::Iab2_10.serialize(), "IAB2-10");
    assert_eq!(ContentCategory::Iab10.serialize(), "IAB10");
    assert_eq!(ContentCategory::Iab19_36.serialize(), "IAB19-36");
    assert_eq!(ContentCategory::Iab26_4.serialize(), "IAB26-4");
    let no_names = [
        "", "IAB", "iab1", "Iab1", "IAB0", "IAB01", "IAB1-", "IAB1-0", "IAB1-01", "IAB1-8", "IAB27",
        "IAB7-46", "IAB24-1", "IAB1_1", "IAB1-1 ", " IAB1", "IAB1-1-1", "IAB100", "IAB1-100", "IA",
        "IAB-1", "IABx", "IAB1x", "IAB1-x", "IAB١",
    ];
    for text in no_names {
        let e = ContentCategory::deserialize(text).unwrap_err();
        assert_eq!(e.kind, ErrorKind::Domain);
        assert_eq!(e.found, Found::Text(text.to_owned()));
        assert_eq!(e.expected, "a content category");
    }
}

#[test]
fn every_content_category_is_read_back() {
    let mut count = 0;
    for top in 1..=30 {
        for sub in 0..=50 {
            let text = if sub == 0 { format!("IAB{}", top) } else { format!("IAB{}-{}", top, sub) };
            if let Ok(c) = ContentCategory::deserialize(&text) {
                assert_eq!(c.serialize(), text);
                count += 1;
            }
        }
    }
    assert_eq!(count, 392);
}

#[test]
fn volume_normalization_mode_zero() {
    assert_eq!(VolumeNormalizationMode::deserialize(0), Ok(VolumeNormalizationMode::NotNormalized));
    assert_eq!(VolumeNormalizationMode::NotNormalized.serialize(), 0);
    assert_eq!(VolumeNormalizationMode::deserialize(4), Ok(VolumeNormalizationMode::CustomVolume));
    assert!(VolumeNormalizationMode::deserialize(5).is_err());
}
