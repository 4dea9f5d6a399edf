//! The objects: what a default value is written as, and what is read back from that.

use openrtb2::{
    from_str, to_string, App, Audio, Banner, Bid, BidRequest, BidResponse, Content, Data, Deal,
    Device, DistributionChannel, Format, Geo, Imp, Metric, Native, Pmp, Producer, Publisher,
    Regs, SeatBid, Segment, Site, Source, User, Video,
};

#[test]
fn app_json() {
    let json = "{}";
    let o1 = App::default();
    assert_eq!(to_string(&o1), json);
    assert_eq!(o1, from_str::<App>(json).unwrap());
}

#[test]
fn audio_json() {
    assert!(from_str::<Audio>("{}").is_err());

    let json = r#"{"mimes":[]}"#;
    let o1 = Audio::default();
    assert_eq!(to_string(&o1), json);
    assert_eq!(o1, from_str::<Audio>(json).unwrap());
}

#[test]
fn banner_json() {
    let json = "{}";
    let o1 = Banner::default();
    assert_eq!(to_string(&o1), json);
    assert_eq!(o1, from_str::<Banner>(json).unwrap());
}

#[test]
fn bid_json() {
    assert!(from_str::<Bid>("{}").is_err());

    let json = r#"{"id":"","impid":"","price":0.0}"#;
    let o1 = Bid::default();
    assert_eq!(to_string(&o1), json);
    assert_eq!(o1, from_str::<Bid>(json).unwrap());
}

#[test]
fn bid_request_json() {
    assert!(from_str::<BidRequest>("{}").is_err());

    let json = r#"{"id":"","imp":[]}"#;
    let o1 = BidRequest::default();
    assert_eq!(to_string(&o1), json);
    assert_eq!(o1, from_str::<BidRequest>(json).unwrap());
}

#[test]
fn bid_response_json() {
    assert!(from_str::<BidResponse>("{}").is_err());

    let json = r#"{"id":""}"#;
    let o1 = BidResponse::default();
    assert_eq!(to_string(&o1), json);
    assert_eq!(o1, from_str::<BidResponse>(json).unwrap());
}

#[test]
fn content_json() {
    let json = "{}";
    let o1 = Content::default();
    assert_eq!(to_string(&o1), json);
    assert_eq!(o1, from_str::<Content>(json).unwrap());
}

#[test]
fn data_json() {
    let json = "{}";
    let o1 = Data::default();
    assert_eq!(to_string(&o1), json);
    assert_eq!(o1, from_str::<Data>(json).unwrap());
}

#[test]
fn deal_json() {
    assert!(from_str::<Deal>("{}").is_err());

    let json = r#"{"id":""}"#;
    let o1 = Deal::default();
    assert_eq!(to_string(&o1), json);
    assert_eq!(o1, from_str::<Deal>(json).unwrap());
}

#[test]
fn device_json() {
    let json = "{}";
    let o1 = Device::default();
    assert_eq!(to_string(&o1), json);
    assert_eq!(o1, from_str::<Device>(json).unwrap());
}

#[test]
fn distribution_channel_json() {
    assert!(from_str::<DistributionChannel>("{}").is_err());

    let j1 = r#"{"site":{}}"#;
    let o1 = DistributionChannel::Site(Site::default());
    assert_eq!(to_string(&o1), j1);
    assert_eq!(o1, from_str::<DistributionChannel>(j1).unwrap());

    let j2 = r#"{"app":{}}"#;
    let o2 = DistributionChannel::App(App::default());
    assert_eq!(to_string(&o2), j2);
    assert_eq!(o2, from_str::<DistributionChannel>(j2).unwrap());
}

#[test]
fn format_json() {
    let json = "{}";
    let o1 = Format::default();
    assert_eq!(to_string(&o1), json);
    assert_eq!(o1, from_str::<Format>(json).unwrap());
}

#[test]
fn geo_json() {
    let json = "{}";
    let o1 = Geo::default();
    assert_eq!(to_string(&o1), json);
    assert_eq!(o1, from_str::<Geo>(json).unwrap());
}

#[test]
fn imp_json() {
    assert!(from_str::<Imp>("{}").is_err());

    let json = r#"{"id":""}"#;
    let o1 = Imp::default();
    assert_eq!(to_string(&o1), json);
    assert_eq!(o1, from_str::<Imp>(json).unwrap());
}

#[test]
fn metric_json() {
    assert!(from_str::<Metric>("{}").is_err());

    let json = r#"{"type":"","value":0.0}"#;
    let o1 = Metric::default();
    assert_eq!(to_string(&o1), json);
    assert_eq!(o1, from_str::<Metric>(json).unwrap());
}

#[test]
fn native_json() {
    assert!(from_str::<Native>("{}").is_err());

    let json = r#"{"request":""}"#;
    let o1 = Native::default();
    assert_eq!(to_string(&o1), json);
    assert_eq!(o1, from_str::<Native>(json).unwrap());
}

#[test]
fn pmp_json() {
    let json = "{}";
    let o1 = Pmp::default();
    assert_eq!(to_string(&o1), json);
    assert_eq!(o1, from_str::<Pmp>(json).unwrap());
}

#[test]
fn producer_json() {
    let json = "{}";
    let o1 = Producer::default();
    assert_eq!(to_string(&o1), json);
    assert_eq!(o1, from_str::<Producer>(json).unwrap());
}

#[test]
fn publisher_json() {
    let json = "{}";
    let o1 = Publisher::default();
    assert_eq!(to_string(&o1), json);
    assert_eq!(o1, from_str::<Publisher>(json).unwrap());
}

#[test]
fn regs_json() {
    let json = "{}";
    let o1 = Regs::default();
    assert_eq!(to_string(&o1), json);
    assert_eq!(o1, from_str::<Regs>(json).unwrap());
}

#[test]
fn seat_bid_json() {
    assert!(from_str::<SeatBid>("{}").is_err());

    let json = r#"{"bid":[]}"#;
    let o1 = SeatBid::default();
    assert_eq!(to_string(&o1), json);
    assert_eq!(o1, from_str::<SeatBid>(json).unwrap());
}

#[test]
fn segment_json() {
    let json = "{}";
    let o1 = Segment::default();
    assert_eq!(to_string(&o1), json);
    assert_eq!(o1, from_str::<Segment>(json).unwrap());
}

#[test]
fn site_json() {
    let json = "{}";
    let o1 = Site::default();
    assert_eq!(to_string(&o1), json);
    assert_eq!(o1, from_str::<Site>(json).unwrap());
}

#[test]
fn source_json() {
    let json = "{}";
    let o1 = Source::default();
    assert_eq!(to_string(&o1), json);
    assert_eq!(o1, from_str::<Source>(json).unwrap());
}

#[test]
fn user_json() {
    let json = "{}";
    let o1 = User::default();
    assert_eq!(to_string(&o1), json);
    assert_eq!(o1, from_str::<User>(json).unwrap());
}

#[test]
fn video_json() {
    assert!(from_str::<Video>("{}").is_err());

    let json = r#"{"mimes":[]}"#;
    let o1 = Video::default();
    assert_eq!(to_string(&o1), json);
    assert_eq!(o1, from_str::<Video>(json).unwrap());
}
