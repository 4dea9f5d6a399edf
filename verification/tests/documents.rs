//! Whole documents: bid requests and bid responses, decoded and encoded again.

use openrtb2::{
    from_str, to_string, AdPosition, ApiFramework, AuctionType, Banner, Bid, BidRequest,
    BidResponse, Codec, ContentCategory, Deal, Device, DistributionChannel, ErrorKind, Found, Imp,
    Site, Step, Video,
};



/// The text without the white space between its tokens. No text below holds white space
/// inside a string.
fn compact(json: &str) -> String {
    json.chars().filter(|c| !c.is_whitespace()).collect()
}

const BANNER_REQUEST: &str = r#"{
  "id": "80ce30c53c16e6ede735f123ef6e32361bfc7b22",
  "imp": [
    {
      "id": "1",
      "banner": {
        "w": 300,
        "h": 250,
        "pos": 1
      },
      "bidfloor": 0.03
    }
  ],
  "site": {
    "id": "102855",
    "domain": "www.foobar.com",
    "cat": ["IAB3-1"],
    "page": "http://www.foobar.com/1234.html",
    "publisher": {
      "id": "8953",
      "name": "foobar.com",
      "cat": ["IAB3-1"],
      "domain": "foobar.com"
    }
  },
  "device": {
    "ua": "Mozilla/5.0",
    "ip": "123.145.167.10"
  },
  "user": {
    "id": "55816b39711f9b5acf3b90e313ed29e51665623f"
  },
  "at": 1,
  "cur": ["USD"]
}"#;

const VIDEO_REQUEST: &str = r#"{
  "id": "1234567893",
  "imp": [
    {
      "id": "1",
      "video": {
        "mimes": ["video/x-flv", "video/mp4"],
        "minduration": 5,
        "maxduration": 30,
        "protocols": [2, 3],
        "w": 640,
        "h": 480,
        "startdelay": 0,
        "linearity": 1,
        "sequence": 1,
        "battr": [13, 14],
        "maxextended": 30,
        "minbitrate": 300,
        "maxbitrate": 1500,
        "boxingallowed": 0,
        "playbackmethod": [1, 3],
        "delivery": [2],
        "pos": 1,
        "companionad": [
          {"w": 300, "h": 250, "battr": [13, 14], "pos": 1, "expdir": [2, 4], "id": "1234567893-1"},
          {"w": 728, "h": 90, "battr": [13, 14], "pos": 1, "id": "1234567893-2"}
        ],
        "api": [1, 2],
        "companiontype": [1, 2]
      },
      "pmp": {
        "private_auction": 1,
        "deals": [
          {"id": "AB-Agency1-0001", "bidfloor": 2.5, "at": 1, "wseat": ["Agency1"]},
          {"id": "XY-Agency2-0001", "bidfloor": 2, "bidfloorcur": "EUR", "wseat": ["Agency2"]}
        ]
      },
      "instl": 1,
      "bidfloor": 0.03,
      "secure": 0
    }
  ],
  "app": {
    "id": "agltb3B1Yi1pbmNyDAsSA0FwcBiJkfIUDA",
    "name": "Yahoo-Weather",
    "bundle": "628677149",
    "storeurl": "https://itunes.apple.com/id628677149",
    "cat": ["IAB15", "IAB15-10"],
    "ver": "1.0.2",
    "paid": 0,
    "publisher": {"id": "agltb3B1Yi1pbmNyDAsSA0FwcBiJkfTUCV", "name": "yahoo"},
    "content": {
      "id": "1234567",
      "episode": 23,
      "title": "Car-Show",
      "series": "All-About-Cars",
      "season": "2",
      "cat": ["IAB2-2"],
      "prodq": 1,
      "livestream": 0,
      "len": 900
    },
    "keywords": "a,b,c"
  },
  "device": {
    "ua": "Mozilla/5.0",
    "geo": {"lat": 35.012345, "lon": -115.12345, "type": 1, "country": "USA", "utcoffset": -480},
    "dnt": 0,
    "ip": "192.168.1.8",
    "devicetype": 1,
    "make": "Apple",
    "model": "iPhone",
    "os": "iOS",
    "osv": "6.1",
    "js": 1,
    "connectiontype": 3,
    "ifa": "AA000DFE74168477C70D291f574D344790E0BB11"
  },
  "user": {
    "id": "ffffffd5135596709273b3a1a07e466ea2bf4fff",
    "yob": 1984,
    "gender": "M",
    "data": [
      {"id": "6", "name": "Data-Provider", "segment": [{"id": "12341318394918", "name": "auto"}]}
    ]
  },
  "test": 1,
  "at": 501,
  "tmax": 120,
  "wseat": ["Agency1", "Agency2"],
  "allimps": 1,
  "cur": ["USD", "EUR"],
  "bcat": ["IAB25", "IAB7-39", "IAB8-18"],
  "badv": ["apple.com", "go-text.me"],
  "source": {"fd": 1, "tid": "t-1", "pchain": "p-1"},
  "regs": {"coppa": 0, "ext": {"gdpr": 1}},
  "ext": {"zeta": [1, {"b": null, "a": true}], "alpha": {"y": 1.5, "x": "text"}}
}"#;

const RESPONSE: &str = r#"{
  "id": "1234567890",
  "seatbid": [
    {
      "bid": [
        {
          "id": "1",
          "impid": "102",
          "price": 9.43,
          "nurl": "http://adserver.com/winnotice?impid=102",
          "adid": "314",
          "adomain": ["advertiserdomain.com"],
          "iurl": "http://adserver.com/pathtosampleimage",
          "cid": "campaign111",
          "crid": "creative112",
          "cat": ["IAB1-5"],
          "attr": [1, 2, 3, 4, 5, 6, 7, 12],
          "api": 3,
          "protocol": 7,
          "qagmediarating": 1,
          "dealid": "deal-1",
          "w": 300,
          "h": 250,
          "exp": 60,
          "ext": {"k": [1, 2]}
        },
        {"id": "2", "impid": "103", "price": 5}
      ],
      "seat": "512",
      "group": 1
    }
  ],
  "bidid": "abc1123",
  "cur": "EUR",
  "customdata": "c",
  "nbr": 2,
  "ext": {"b": 1, "a": 2}
}"#;

#[test]
fn banner_request_round_trip() {
    let request: BidRequest = from_str(BANNER_REQUEST).unwrap();
    assert_eq!(to_string(&request), compact(BANNER_REQUEST));
    assert_eq!(from_str::<BidRequest>(&to_string(&request)).unwrap(), request);

    assert_eq!(request.id, "80ce30c53c16e6ede735f123ef6e32361bfc7b22");
    assert_eq!(request.at, AuctionType::FirstPrice);
    assert!(!request.test);
    assert_eq!(request.cur, Some(vec!["USD".to_owned()]));
    assert_eq!(request.imp.len(), 1);
    let imp = &request.imp[0];
    assert_eq!(imp.bidfloor.as_f64(), Some(0.03));
    assert_eq!(imp.bidfloorcur, "USD");
    let banner = imp.banner.as_ref().unwrap();
    assert_eq!((banner.w, banner.h), (Some(300), Some(250)));
    assert_eq!(banner.pos, Some(AdPosition::AboveTheFold));
    let channel = request.channel.as_ref().unwrap();
    assert!(channel.is_site());
    assert!(!channel.is_app());
    assert_eq!(channel.as_app(), None);
    let site = channel.as_site().unwrap();
    assert_eq!(site.cat, Some(vec![ContentCategory::Iab3_1]));
    assert_eq!(site.publisher.as_ref().unwrap().id.as_deref(), Some("8953"));
    assert_eq!(request.device.as_ref().unwrap().ip.as_deref(), Some("123.145.167.10"));
}

#[test]
fn video_request_round_trip() {
    let request: BidRequest = from_str(VIDEO_REQUEST).unwrap();
    assert_eq!(to_string(&request), compact(VIDEO_REQUEST));
    assert_eq!(from_str::<BidRequest>(&to_string(&request)).unwrap(), request);

    assert!(request.test);
    assert!(request.allimps);
    assert_eq!(request.at, AuctionType::ExchangeSpecific(501));
    let video = request.imp[0].video.as_ref().unwrap();
    assert!(!video.boxingallowed);
    assert_eq!(video.api, Some(vec![ApiFramework::Vpaid1, ApiFramework::Vpaid2]));
    assert_eq!(video.companionad.as_ref().unwrap().len(), 2);
    let deals = request.imp[0].pmp.as_ref().unwrap().deals.as_ref().unwrap();
    assert_eq!(deals[0].at, AuctionType::FirstPrice);
    assert_eq!(deals[0].bidfloorcur, "USD");
    assert_eq!(deals[1].at, AuctionType::SecondPricePlus);
    assert_eq!(deals[1].bidfloorcur, "EUR");
    assert_eq!(deals[1].bidfloor.as_i64(), Some(2));
    assert!(request.channel.as_ref().unwrap().is_app());
    let geo = request.device.as_ref().unwrap().geo.as_ref().unwrap();
    assert_eq!(geo.lat.as_ref().unwrap().as_f64(), Some(35.012345));
    assert_eq!(geo.lon.as_ref().unwrap().as_f64(), Some(-115.12345));
}

#[test]
fn response_round_trip() {
    let response: BidResponse = from_str(RESPONSE).unwrap();
    assert_eq!(to_string(&response), compact(RESPONSE));
    assert_eq!(from_str::<BidResponse>(&to_string(&response)).unwrap(), response);

    assert_eq!(response.cur, "EUR");
    let seat = &response.seatbid.as_ref().unwrap()[0];
    assert!(seat.group);
    assert_eq!(seat.bid[0].price.as_f64(), Some(9.43));
    assert_eq!(seat.bid[1].price.as_i64(), Some(5));
}

#[test]
fn extensions_survive() {
    let json = r#"{"id":"1","ext":{"z":{"q":[1,2.5,"x",null,true,{"b":1,"a":2}]},"a":null,"m":""}}"#;
    let response: BidResponse = from_str(json).unwrap();
    assert_eq!(to_string(&response), json);
    let ext = response.ext.as_ref().unwrap();
    assert_eq!(ext.keys().collect::<Vec<_>>(), ["z", "a", "m"]);

    assert_eq!(from_str::<BidResponse>(r#"{"id":"1","ext":null}"#).unwrap().ext, None);
    assert_eq!(to_string(&from_str::<BidResponse>(r#"{"id":"1","ext":{}}"#).unwrap()), r#"{"id":"1","ext":{}}"#);
    for other in ["1", "true", r#""x""#, "[1]"] {
        let e = from_str::<BidResponse>(&format!(r#"{{"id":"1","ext":{}}}"#, other)).unwrap_err();
        assert_eq!(e.kind, ErrorKind::Shape);
        assert_eq!(e.expected, "an object");
        assert_eq!(e.path, vec![Step::Key("ext")]);
    }
}

#[test]
fn default_request_is_minimal() {
    let request = BidRequest::default();
    assert_eq!(to_string(&request), r#"{"id":"","imp":[]}"#);
    assert_eq!(request.at, AuctionType::SecondPricePlus);
    assert_eq!(request.channel, None);
    assert_eq!(to_string(&BidResponse::default()), r#"{"id":""}"#);
    assert_eq!(BidResponse::default().cur, "USD");
    assert_eq!(to_string(&Imp::default()), r#"{"id":""}"#);
    assert_eq!(Imp::default().bidfloorcur, "USD");
    assert_eq!(Imp::default().bidfloor.to_string(), "0.0");
    assert_eq!(to_string(&Deal::default()), r#"{"id":""}"#);
    assert_eq!(Deal::default().bidfloorcur, "USD");
    assert_eq!(to_string(&Video::default()), r#"{"mimes":[]}"#);
    assert!(Video::default().boxingallowed);
    assert_eq!(to_string(&Bid::default()), r#"{"id":"","impid":"","price":0.0}"#);
}

#[test]
fn members_with_their_default_are_left_out() {
    let json = r#"{"id":"1","imp":[{"id":"2","instl":0,"bidfloor":0,"bidfloorcur":"USD"}],"test":0,"at":2,"allimps":0}"#;
    let request: BidRequest = from_str(json).unwrap();
    assert_eq!(to_string(&request), r#"{"id":"1","imp":[{"id":"2"}]}"#);
    let again: BidRequest = from_str(&to_string(&request)).unwrap();
    assert_eq!(again, request);

    let video: Video = from_str(r#"{"mimes":[],"skipmin":0,"skipafter":0,"maxextended":0,"boxingallowed":1}"#).unwrap();
    assert_eq!(video, Video::default());
    assert_eq!(to_string(&video), r#"{"mimes":[]}"#);
    let video: Video = from_str(r#"{"mimes":["a"],"skipmin":1,"skipafter":2,"maxextended":-1,"boxingallowed":0}"#).unwrap();
    assert_eq!(to_string(&video), r#"{"mimes":["a"],"skipmin":1,"skipafter":2,"maxextended":-1,"boxingallowed":0}"#);

    let response: BidResponse = from_str(r#"{"id":"1","cur":"USD"}"#).unwrap();
    assert_eq!(to_string(&response), r#"{"id":"1"}"#);
    let response: BidResponse = from_str(r#"{"id":"1","cur":""}"#).unwrap();
    assert_eq!(to_string(&response), r#"{"id":"1","cur":""}"#);
}

#[test]
fn required_members() {
    for (json, key) in [("{}", "id"), (r#"{"imp":[]}"#, "id"), (r#"{"id":"1"}"#, "imp")] {
        let e = from_str::<BidRequest>(json).unwrap_err();
        assert_eq!(e.kind, ErrorKind::Shape);
        assert_eq!(e.found, Found::Absent);
        assert_eq!(e.path, vec![Step::Key(key)]);
    }
    let e = from_str::<BidRequest>(r#"{"id":null,"imp":[]}"#).unwrap_err();
    assert_eq!((e.kind, e.found.clone()), (ErrorKind::Shape, Found::Null));
    let e = from_str::<BidRequest>(r#"{"id":7,"imp":[]}"#).unwrap_err();
    assert_eq!(e.message(), "invalid value: 7, expected a string at $.id");
    let e = from_str::<BidRequest>("[]").unwrap_err();
    assert_eq!(e.message(), "invalid value: an array, expected an object");
    assert!(from_str::<BidResponse>("{}").is_err());
    assert!(from_str::<Bid>(r#"{"id":"1","impid":"2"}"#).is_err());
    assert!(from_str::<Bid>(r#"{"id":"1","impid":"2","price":"3"}"#).is_err());
    assert!(from_str::<Video>("{}").is_err());
}

#[test]
fn errors_carry_their_path() {
    let json = r#"{"id":"1","imp":[{"id":"1"},{"id":"2","banner":{"w":1,"topframe":2}}]}"#;
    let e = from_str::<BidRequest>(json).unwrap_err();
    assert_eq!(e.kind, ErrorKind::Domain);
    assert_eq!(e.found, Found::Integer(2));
    assert_eq!(
        e.path,
        vec![Step::Key("imp"), Step::Index(1), Step::Key("banner"), Step::Key("topframe")]
    );
    assert_eq!(e.message(), "invalid value: 2, expected 0 or 1 at $.imp[1].banner.topframe");

    let json = r#"{"id":"1","imp":[],"site":{"cat":["IAB1","IAB1-9"]}}"#;
    let e = from_str::<BidRequest>(json).unwrap_err();
    assert_eq!(e.found, Found::Text("IAB1-9".to_owned()));
    assert_eq!(e.message(), "invalid value: \"IAB1-9\", expected a content category at $.site.cat[1]");

    // The first field, in the order of the fields, decides which error is reported.
    let json = r#"{"at":3,"test":5,"id":"1","imp":[]}"#;
    let e = from_str::<BidRequest>(json).unwrap_err();
    assert_eq!(e.path, vec![Step::Key("test")]);
    let json = r#"{"at":500,"id":"1","imp":[]}"#;
    let e = from_str::<BidRequest>(json).unwrap_err();
    assert_eq!(e.message(), "invalid value: 500, expected 1 or 2 or greater than 500 at $.at");
}

#[test]
fn site_or_app_never_both() {
    assert!(from_str::<DistributionChannel>(r#"{"site":{},"app":{}}"#).is_err());
    assert!(from_str::<DistributionChannel>("{}").is_err());
    assert!(from_str::<DistributionChannel>(r#"{"other":{}}"#).is_err());
    assert!(from_str::<DistributionChannel>("[]").is_err());
    let channel: DistributionChannel = from_str(r#"{"site":{}}"#).unwrap();
    assert_eq!(to_string(&channel), r#"{"site":{}}"#);
    let channel: DistributionChannel = from_str(r#"{"app":{"id":"7"}}"#).unwrap();
    assert_eq!(to_string(&channel), r#"{"app":{"id":"7"}}"#);

    let e = from_str::<DistributionChannel>(r#"{"app":{},"site":{}}"#).unwrap_err();
    assert_eq!((e.kind, e.found.clone()), (ErrorKind::Shape, Found::Object));
    assert_eq!(e.expected, "one of `site` and `app`, not both");
    let e = from_str::<DistributionChannel>("{}").unwrap_err();
    assert_eq!((e.kind, e.found.clone()), (ErrorKind::Shape, Found::Absent));
    assert_eq!(e.expected, "a member `site` or `app`");
    let e = from_str::<DistributionChannel>(r#"{"site":{"mobile":3}}"#).unwrap_err();
    assert_eq!(e.path, vec![Step::Key("site"), Step::Key("mobile")]);
    let e = from_str::<DistributionChannel>(r#"{"app":null}"#).unwrap_err();
    assert_eq!(e.path, vec![Step::Key("app")]);

    // In a bid request the channel may be missing, and may not be double.
    assert_eq!(from_str::<BidRequest>(r#"{"id":"","imp":[]}"#).unwrap().channel, None);
    let e = from_str::<BidRequest>(r#"{"id":"","imp":[],"site":{},"app":{}}"#).unwrap_err();
    assert_eq!(e.expected, "one of `site` and `app`, not both");
    let request: BidRequest = from_str(r#"{"id":"","imp":[],"app":{}}"#).unwrap();
    assert_eq!(to_string(&request), r#"{"id":"","imp":[],"app":{}}"#);
    let e = from_str::<BidRequest>(r#"{"id":"","imp":[],"site":{"privacypolicy":9}}"#).unwrap_err();
    assert_eq!(e.path, vec![Step::Key("site"), Step::Key("privacypolicy")]);
}

#[test]
fn channel_accessors() {
    let mut channel = DistributionChannel::Site(Site::default());
    assert!(channel.is_site());
    assert!(channel.as_app_mut().is_none());
    channel.as_site_mut().unwrap().id = Some("s".to_owned());
    assert_eq!(channel.as_site().unwrap().id.as_deref(), Some("s"));
    assert_eq!(to_string(&channel), r#"{"site":{"id":"s"}}"#);

    let mut channel = DistributionChannel::App(openrtb2::App::default());
    assert!(channel.is_app());
    assert!(channel.as_site().is_none());
    assert!(channel.as_site_mut().is_none());
    channel.as_app_mut().unwrap().bundle = Some("b".to_owned());
    assert_eq!(channel.as_app().unwrap().bundle.as_deref(), Some("b"));
    assert_eq!(to_string(&channel), r#"{"app":{"bundle":"b"}}"#);
}

#[test]
fn deprecated_members_are_read_and_not_written() {
    let banner: Banner = from_str(r#"{"w":1,"wmax":2,"hmax":3,"wmin":4,"hmin":5,"id":"b"}"#).unwrap();
    assert_eq!((banner.wmax, banner.hmax, banner.wmin, banner.hmin), (Some(2), Some(3), Some(4), Some(5)));
    assert_eq!(to_string(&banner), r#"{"w":1,"id":"b"}"#);
    let content: openrtb2::Content = from_str(r#"{"prodq":1,"videoquality":2}"#).unwrap();
    assert_eq!(content.videoquality, Some(openrtb2::ProductionQuality::Prosumer));
    assert_eq!(to_string(&content), r#"{"prodq":1}"#);
    assert!(from_str::<Banner>(r#"{"wmax":"2"}"#).is_err());
}

#[test]
fn unknown_and_null_members() {
    let device: Device = from_str(r#"{"ua":null,"unknown":{"x":1},"w":null,"h":7,"geo":null}"#).unwrap();
    assert_eq!(device.ua, None);
    assert_eq!(device.h, Some(7));
    assert_eq!(to_string(&device), r#"{"h":7}"#);
    assert!(from_str::<BidRequest>(r#"{"id":"","imp":[],"test":null}"#).is_err());
    assert!(from_str::<BidRequest>(r#"{"id":"","imp":[],"at":null}"#).is_err());
    assert!(from_str::<Imp>(r#"{"id":"","bidfloor":null}"#).is_err());
}

#[test]
fn numbers_are_kept_as_written() {
    let bid: Bid = from_str(r#"{"id":"","impid":"","price":1}"#).unwrap();
    assert_eq!(to_string(&bid), r#"{"id":"","impid":"","price":1}"#);
    let bid: Bid = from_str(r#"{"id":"","impid":"","price":1.0}"#).unwrap();
    assert_eq!(to_string(&bid), r#"{"id":"","impid":"","price":1.0}"#);
    let bid: Bid = from_str(r#"{"id":"","impid":"","price":-0.5e1}"#).unwrap();
    assert_eq!(to_string(&bid), r#"{"id":"","impid":"","price":-5.0}"#);
    let metric: openrtb2::Metric = from_str(r#"{"type":"viewability","value":0.1}"#).unwrap();
    assert_eq!(to_string(&metric), r#"{"type":"viewability","value":0.1}"#);
    assert_eq!(to_string(&openrtb2::Metric::default()), r#"{"type":"","value":0.0}"#);
}

#[test]
fn text_that_is_no_document() {
    for text in ["", "{", "{}}", "nul", "[1,]", r#"{"id":"1" "imp":[]}"#, "'x'"] {
        let e = from_str::<BidRequest>(text).unwrap_err();
        assert_eq!(e.kind, ErrorKind::Shape);
        assert_eq!(e.found, Found::Text(text.to_owned()));
        assert_eq!(e.expected, "a JSON document");
        assert!(e.path.is_empty());
    }
    assert_eq!(
        from_str::<i32>("1 2").unwrap_err().message(),
        "invalid value: \"1 2\", expected a JSON document"
    );
    // White space around the tokens is no part of the document.
    assert_eq!(from_str::<Vec<i32>>(" [ 1 ,\n 2 ]\t"), Ok(vec![1, 2]));
    assert_eq!(to_string(&vec![1, 2]), "[1,2]");
}

#[test]
fn values_and_text_agree() {
    let value: serde_json::Value = serde_json::from_str(BANNER_REQUEST).unwrap();
    let request = BidRequest::from_value(&value).unwrap();
    assert_eq!(request, from_str::<BidRequest>(BANNER_REQUEST).unwrap());
    assert_eq!(request.to_value(), value);
    assert_eq!(serde_json::to_string(&request.to_value()).unwrap(), to_string(&request));
}

#[test]
fn device_types_and_ratios() {
    use_device_types();
    let device: Device = from_str(r#"{"devicetype":4,"pxratio":2.5,"language":"en"}"#).unwrap();
    assert_eq!(device.devicetype, Some(openrtb2::DeviceType::Phone));
    assert_eq!(device.pxratio.as_ref().unwrap().as_f64(), Some(2.5));
    assert_eq!(to_string(&device), r#"{"devicetype":4,"pxratio":2.5,"language":"en"}"#);
    let device: Device = from_str(r#"{"pxratio":2}"#).unwrap();
    assert_eq!(to_string(&device), r#"{"pxratio":2}"#);
    assert!(from_str::<Device>(r#"{"pxratio":"2"}"#).is_err());
    assert!(from_str::<Device>(r#"{"devicetype":8}"#).is_err());
    assert!(from_str::<Device>(r#"{"devicetype":0}"#).is_err());

    let content: openrtb2::Content = from_str(r#"{"len":30,"language":"en"}"#).unwrap();
    assert_eq!(content.language.as_deref(), Some("en"));
    assert_eq!(to_string(&content), r#"{"len":30,"language":"en"}"#);
    assert!(from_str::<openrtb2::Content>(r#"{"language":7}"#).is_err());

    let audio: openrtb2::Audio = from_str(r#"{"mimes":["audio/mp4"],"battr":[13,14]}"#).unwrap();
    assert_eq!(
        audio.battr,
        Some(vec![
            openrtb2::CreativeAttribute::UserInteractive,
            openrtb2::CreativeAttribute::WindowsDialogOrAlertStyle
        ])
    );
    assert_eq!(to_string(&audio), r#"{"mimes":["audio/mp4"],"battr":[13,14]}"#);
    assert!(from_str::<openrtb2::Audio>(r#"{"mimes":[],"battr":13}"#).is_err());
}

fn use_device_types() {
    let all = [
        (1, openrtb2::DeviceType::Mobile),
        (2, openrtb2::DeviceType::PersonalComputer),
        (3, openrtb2::DeviceType::ConnectedTv),
        (4, openrtb2::DeviceType::Phone),
        (5, openrtb2::DeviceType::Tablet),
        (6, openrtb2::DeviceType::ConnectedDevice),
        (7, openrtb2::DeviceType::SetTopBox),
    ];
    for (code, device) in all {
        assert_eq!(openrtb2::DeviceType::deserialize(code), Ok(device));
        assert_eq!(device.serialize(), code);
    }
}
