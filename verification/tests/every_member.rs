//! Every object with every member that is written, decoded and encoded again.

use openrtb2::{
    from_str, to_string, App, Audio, Banner, Bid, BidRequest, BidResponse, Content, Data, Deal,
    Device, Format, Geo, Imp, Metric, Native, Pmp, Producer, Publisher, Regs, SeatBid, Segment,
    Site, Source, User, Video,
};

#[test]
fn bid_request_with_every_member() {
    let json = [
        r#"{"id":"id-x","imp":[{"id":"id-x","metric":[{"type":"type-x","value":1.5,"vendor":"ve"#,
        r#"ndor-x","ext":{"k":"v","n":[1,{"z":null}]}}],"banner":{"format":[{"w":7,"h":7,"wrati"#,
        r#"o":7,"hratio":7,"wmin":7,"ext":{"k":"v","n":[1,{"z":null}]}}],"w":7,"h":7,"btype":[4"#,
        r#",4],"battr":[17,17],"pos":7,"mimes":["mimes-x","mimes-x"],"topframe":1,"expdir":[5,5"#,
        r#"],"api":[6,6],"id":"id-x","vcm":1,"ext":{"k":"v","n":[1,{"z":null}]}},"video":{"mime"#,
        r#"s":["mimes-x","mimes-x"],"minduration":7,"maxduration":7,"protocols":[10,10],"w":7,""#,
        r#"h":7,"startdelay":5,"placement":5,"linearity":2,"skip":1,"skipmin":7,"skipafter":7,""#,
        r#"sequence":7,"battr":[17,17],"maxextended":-1,"minbitrate":7,"maxbitrate":7,"boxingal"#,
        r#"lowed":0,"playbackmethod":[6,6],"playbackend":3,"delivery":[3,3],"pos":7,"companiona"#,
        r#"d":[{"format":[{"w":7,"h":7,"wratio":7,"hratio":7,"wmin":7,"ext":{"k":"v","n":[1,{"z"#,
        r#"":null}]}}],"w":7,"h":7,"btype":[4,4],"battr":[17,17],"pos":7,"mimes":["mimes-x","mi"#,
        r#"mes-x"],"topframe":1,"expdir":[5,5],"api":[6,6],"id":"id-x","vcm":1,"ext":{"k":"v",""#,
        r#"n":[1,{"z":null}]}}],"api":[6,6],"companiontype":[3,3],"ext":{"k":"v","n":[1,{"z":nu"#,
        r#"ll}]}},"audio":{"mimes":["mimes-x","mimes-x"],"minduration":7,"maxduration":7,"proto"#,
        r#"cols":[10,10],"startdelay":5,"sequence":7,"battr":[17,17],"maxextended":-1,"minbitra"#,
        r#"te":7,"maxbitrate":7,"delivery":[3,3],"companionad":[{"format":[{"w":7,"h":7,"wratio"#,
        r#"":7,"hratio":7,"wmin":7,"ext":{"k":"v","n":[1,{"z":null}]}}],"w":7,"h":7,"btype":[4,"#,
        r#"4],"battr":[17,17],"pos":7,"mimes":["mimes-x","mimes-x"],"topframe":1,"expdir":[5,5]"#,
        r#","api":[6,6],"id":"id-x","vcm":1,"ext":{"k":"v","n":[1,{"z":null}]}}],"api":[6,6],"c"#,
        r#"ompaniontype":[3,3],"maxseq":7,"feed":3,"stitched":1,"nvol":4,"ext":{"k":"v","n":[1,"#,
        r#"{"z":null}]}},"native":{"request":"request-x","ver":"ver-x","api":[6,6],"battr":[17,"#,
        r#"17],"ext":{"k":"v","n":[1,{"z":null}]}},"pmp":{"private_auction":1,"deals":[{"id":"i"#,
        r#"d-x","bidfloor":1.5,"bidfloorcur":"bidfloorcur-x","at":1,"wseat":["wseat-x","wseat-x"#,
        r#""],"wadomain":["wadomain-x","wadomain-x"],"ext":{"k":"v","n":[1,{"z":null}]}}],"ext""#,
        r#":{"k":"v","n":[1,{"z":null}]}},"displaymanager":"displaymanager-x","displaymanagerve"#,
        r#"r":"displaymanagerver-x","instl":1,"tagid":"tagid-x","bidfloor":1.5,"bidfloorcur":"b"#,
        r#"idfloorcur-x","clickbrowser":1,"secure":1,"iframebuster":["iframebuster-x","iframebu"#,
        r#"ster-x"],"exp":7,"ext":{"k":"v","n":[1,{"z":null}]}}],"site":{"id":"id-x","name":"na"#,
        r#"me-x","domain":"domain-x","cat":["IAB2-3","IAB2-3"],"sectioncat":["IAB2-3","IAB2-3"]"#,
        r#","pagecat":["IAB2-3","IAB2-3"],"page":"page-x","ref":"ref-x","search":"search-x","mo"#,
        r#"bile":1,"privacypolicy":1,"publisher":{"id":"id-x","name":"name-x","cat":["IAB2-3",""#,
        r#"IAB2-3"],"domain":"domain-x","ext":{"k":"v","n":[1,{"z":null}]}},"content":{"id":"id"#,
        r#"-x","episode":7,"title":"title-x","series":"series-x","season":"season-x","artist":""#,
        r#"artist-x","genre":"genre-x","album":"album-x","isrc":"isrc-x","producer":{"id":"id-x"#,
        r#"","name":"name-x","cat":["IAB2-3","IAB2-3"],"domain":"domain-x","ext":{"k":"v","n":["#,
        r#"1,{"z":null}]}},"url":"url-x","cat":["IAB2-3","IAB2-3"],"prodq":3,"context":7,"conte"#,
        r#"ntrating":"contentrating-x","userrating":"userrating-x","qagmediarating":3,"keywords"#,
        r#"":"keywords-x","livestream":1,"sourcerelationship":1,"len":7,"language":"language-x""#,
        r#","embeddable":1,"data":[{"id":"id-x","name":"name-x","segment":[{"id":"id-x","name":"#,
        r#""name-x","value":"value-x","ext":{"k":"v","n":[1,{"z":null}]}}],"ext":{"k":"v","n":["#,
        r#"1,{"z":null}]}}],"ext":{"k":"v","n":[1,{"z":null}]}},"keywords":"keywords-x","ext":{"#,
        r#""k":"v","n":[1,{"z":null}]}},"device":{"ua":"ua-x","geo":{"lat":1.5,"lon":1.5,"type""#,
        r#":3,"accuracy":7,"lastfix":7,"ipservice":4,"country":"country-x","region":"region-x","#,
        r#""regionfips104":"regionfips104-x","metro":"metro-x","city":"city-x","zip":"zip-x","u"#,
        r#"tcoffset":7,"ext":{"k":"v","n":[1,{"z":null}]}},"dnt":1,"lmt":1,"ip":"ip-x","ipv6":""#,
        r#"ipv6-x","devicetype":7,"make":"make-x","model":"model-x","os":"os-x","osv":"osv-x",""#,
        r#"hwv":"hwv-x","h":7,"w":7,"ppi":7,"pxratio":1.5,"js":1,"geofetch":1,"flashver":"flash"#,
        r#"ver-x","language":"language-x","carrier":"carrier-x","mccmnc":"mccmnc-x","connection"#,
        r#"type":6,"ifa":"ifa-x","didsha1":"didsha1-x","didmd5":"didmd5-x","dpidsha1":"dpidsha1"#,
        r#"-x","dpidmd5":"dpidmd5-x","macsha1":"macsha1-x","macmd5":"macmd5-x","ext":{"k":"v",""#,
        r#"n":[1,{"z":null}]}},"user":{"id":"id-x","buyeruid":"buyeruid-x","yob":7,"gender":"F""#,
        r#","keywords":"keywords-x","customdata":"customdata-x","geo":{"lat":1.5,"lon":1.5,"typ"#,
        r#"e":3,"accuracy":7,"lastfix":7,"ipservice":4,"country":"country-x","region":"region-x"#,
        r#"","regionfips104":"regionfips104-x","metro":"metro-x","city":"city-x","zip":"zip-x","#,
        r#""utcoffset":7,"ext":{"k":"v","n":[1,{"z":null}]}},"data":[{"id":"id-x","name":"name-"#,
        r#"x","segment":[{"id":"id-x","name":"name-x","value":"value-x","ext":{"k":"v","n":[1,{"#,
        r#""z":null}]}}],"ext":{"k":"v","n":[1,{"z":null}]}}],"ext":{"k":"v","n":[1,{"z":null}]"#,
        r#"}},"test":1,"at":1,"tmax":7,"wseat":["wseat-x","wseat-x"],"bseat":["bseat-x","bseat-"#,
        r#"x"],"allimps":1,"cur":["cur-x","cur-x"],"wlang":["wlang-x","wlang-x"],"bcat":["IAB2-"#,
        r#"3","IAB2-3"],"badv":["badv-x","badv-x"],"bapp":["bapp-x","bapp-x"],"source":{"fd":1,"#,
        r#""tid":"tid-x","pchain":"pchain-x","ext":{"k":"v","n":[1,{"z":null}]}},"regs":{"coppa"#,
        r#"":1,"ext":{"k":"v","n":[1,{"z":null}]}},"ext":{"k":"v","n":[1,{"z":null}]}}"#,
    ]
    .concat();
    let o1 = from_str::<BidRequest>(&json).unwrap();
    assert_eq!(to_string(&o1), json);
    assert_eq!(from_str::<BidRequest>(&to_string(&o1)).unwrap(), o1);
    assert_ne!(o1, BidRequest::default());
}

#[test]
fn source_with_every_member() {
    let json = r#"{"fd":1,"tid":"tid-x","pchain":"pchain-x","ext":{"k":"v","n":[1,{"z":null}]}}"#;
    let o1 = from_str::<Source>(json).unwrap();
    assert_eq!(to_string(&o1), json);
    assert_eq!(from_str::<Source>(&to_string(&o1)).unwrap(), o1);
    assert_ne!(o1, Source::default());
}

#[test]
fn regs_with_every_member() {
    let json = r#"{"coppa":1,"ext":{"k":"v","n":[1,{"z":null}]}}"#;
    let o1 = from_str::<Regs>(json).unwrap();
    assert_eq!(to_string(&o1), json);
    assert_eq!(from_str::<Regs>(&to_string(&o1)).unwrap(), o1);
    assert_ne!(o1, Regs::default());
}

#[test]
fn imp_with_every_member() {
    let json = [
        r#"{"id":"id-x","metric":[{"type":"type-x","value":1.5,"vendor":"vendor-x","ext":{"k":""#,
        r#"v","n":[1,{"z":null}]}}],"banner":{"format":[{"w":7,"h":7,"wratio":7,"hratio":7,"wmi"#,
        r#"n":7,"ext":{"k":"v","n":[1,{"z":null}]}}],"w":7,"h":7,"btype":[4,4],"battr":[17,17],"#,
        r#""pos":7,"mimes":["mimes-x","mimes-x"],"topframe":1,"expdir":[5,5],"api":[6,6],"id":""#,
        r#"id-x","vcm":1,"ext":{"k":"v","n":[1,{"z":null}]}},"video":{"mimes":["mimes-x","mimes"#,
        r#"-x"],"minduration":7,"maxduration":7,"protocols":[10,10],"w":7,"h":7,"startdelay":5,"#,
        r#""placement":5,"linearity":2,"skip":1,"skipmin":7,"skipafter":7,"sequence":7,"battr":"#,
        r#"[17,17],"maxextended":-1,"minbitrate":7,"maxbitrate":7,"boxingallowed":0,"playbackme"#,
        r#"thod":[6,6],"playbackend":3,"delivery":[3,3],"pos":7,"companionad":[{"format":[{"w":"#,
        r#"7,"h":7,"wratio":7,"hratio":7,"wmin":7,"ext":{"k":"v","n":[1,{"z":null}]}}],"w":7,"h"#,
        r#"":7,"btype":[4,4],"battr":[17,17],"pos":7,"mimes":["mimes-x","mimes-x"],"topframe":1"#,
        r#","expdir":[5,5],"api":[6,6],"id":"id-x","vcm":1,"ext":{"k":"v","n":[1,{"z":null}]}}]"#,
        r#","api":[6,6],"companiontype":[3,3],"ext":{"k":"v","n":[1,{"z":null}]}},"audio":{"mim"#,
        r#"es":["mimes-x","mimes-x"],"minduration":7,"maxduration":7,"protocols":[10,10],"start"#,
        r#"delay":5,"sequence":7,"battr":[17,17],"maxextended":-1,"minbitrate":7,"maxbitrate":7"#,
        r#","delivery":[3,3],"companionad":[{"format":[{"w":7,"h":7,"wratio":7,"hratio":7,"wmin"#,
        r#"":7,"ext":{"k":"v","n":[1,{"z":null}]}}],"w":7,"h":7,"btype":[4,4],"battr":[17,17],""#,
        r#"pos":7,"mimes":["mimes-x","mimes-x"],"topframe":1,"expdir":[5,5],"api":[6,6],"id":"i"#,
        r#"d-x","vcm":1,"ext":{"k":"v","n":[1,{"z":null}]}}],"api":[6,6],"companiontype":[3,3],"#,
        r#""maxseq":7,"feed":3,"stitched":1,"nvol":4,"ext":{"k":"v","n":[1,{"z":null}]}},"nativ"#,
        r#"e":{"request":"request-x","ver":"ver-x","api":[6,6],"battr":[17,17],"ext":{"k":"v",""#,
        r#"n":[1,{"z":null}]}},"pmp":{"private_auction":1,"deals":[{"id":"id-x","bidfloor":1.5,"#,
        r#""bidfloorcur":"bidfloorcur-x","at":1,"wseat":["wseat-x","wseat-x"],"wadomain":["wado"#,
        r#"main-x","wadomain-x"],"ext":{"k":"v","n":[1,{"z":null}]}}],"ext":{"k":"v","n":[1,{"z"#,
        r#"":null}]}},"displaymanager":"displaymanager-x","displaymanagerver":"displaymanagerve"#,
        r#"r-x","instl":1,"tagid":"tagid-x","bidfloor":1.5,"bidfloorcur":"bidfloorcur-x","click"#,
        r#"browser":1,"secure":1,"iframebuster":["iframebuster-x","iframebuster-x"],"exp":7,"ex"#,
        r#"t":{"k":"v","n":[1,{"z":null}]}}"#,
    ]
    .concat();
    let o1 = from_str::<Imp>(&json).unwrap();
    assert_eq!(to_string(&o1), json);
    assert_eq!(from_str::<Imp>(&to_string(&o1)).unwrap(), o1);
    assert_ne!(o1, Imp::default());
}

#[test]
fn metric_with_every_member() {
    let json = r#"{"type":"type-x","value":1.5,"vendor":"vendor-x","ext":{"k":"v","n":[1,{"z":null}]}}"#;
    let o1 = from_str::<Metric>(json).unwrap();
    assert_eq!(to_string(&o1), json);
    assert_eq!(from_str::<Metric>(&to_string(&o1)).unwrap(), o1);
    assert_ne!(o1, Metric::default());
}

#[test]
fn banner_with_every_member() {
    let json = [
        r#"{"format":[{"w":7,"h":7,"wratio":7,"hratio":7,"wmin":7,"ext":{"k":"v","n":[1,{"z":nu"#,
        r#"ll}]}}],"w":7,"h":7,"btype":[4,4],"battr":[17,17],"pos":7,"mimes":["mimes-x","mimes-"#,
        r#"x"],"topframe":1,"expdir":[5,5],"api":[6,6],"id":"id-x","vcm":1,"ext":{"k":"v","n":["#,
        r#"1,{"z":null}]}}"#,
    ]
    .concat();
    let o1 = from_str::<Banner>(&json).unwrap();
    assert_eq!(to_string(&o1), json);
    assert_eq!(from_str::<Banner>(&to_string(&o1)).unwrap(), o1);
    assert_ne!(o1, Banner::default());
}

#[test]
fn video_with_every_member() {
    let json = [
        r#"{"mimes":["mimes-x","mimes-x"],"minduration":7,"maxduration":7,"protocols":[10,10],""#,
        r#"w":7,"h":7,"startdelay":5,"placement":5,"linearity":2,"skip":1,"skipmin":7,"skipafte"#,
        r#"r":7,"sequence":7,"battr":[17,17],"maxextended":-1,"minbitrate":7,"maxbitrate":7,"bo"#,
        r#"xingallowed":0,"playbackmethod":[6,6],"playbackend":3,"delivery":[3,3],"pos":7,"comp"#,
        r#"anionad":[{"format":[{"w":7,"h":7,"wratio":7,"hratio":7,"wmin":7,"ext":{"k":"v","n":"#,
        r#"[1,{"z":null}]}}],"w":7,"h":7,"btype":[4,4],"battr":[17,17],"pos":7,"mimes":["mimes-"#,
        r#"x","mimes-x"],"topframe":1,"expdir":[5,5],"api":[6,6],"id":"id-x","vcm":1,"ext":{"k""#,
        r#":"v","n":[1,{"z":null}]}}],"api":[6,6],"companiontype":[3,3],"ext":{"k":"v","n":[1,{"#,
        r#""z":null}]}}"#,
    ]
    .concat();
    let o1 = from_str::<Video>(&json).unwrap();
    assert_eq!(to_string(&o1), json);
    assert_eq!(from_str::<Video>(&to_string(&o1)).unwrap(), o1);
    assert_ne!(o1, Video::default());
}

#[test]
fn audio_with_every_member() {
    let json = [
        r#"{"mimes":["mimes-x","mimes-x"],"minduration":7,"maxduration":7,"protocols":[10,10],""#,
        r#"startdelay":5,"sequence":7,"battr":[17,17],"maxextended":-1,"minbitrate":7,"maxbitra"#,
        r#"te":7,"delivery":[3,3],"companionad":[{"format":[{"w":7,"h":7,"wratio":7,"hratio":7,"#,
        r#""wmin":7,"ext":{"k":"v","n":[1,{"z":null}]}}],"w":7,"h":7,"btype":[4,4],"battr":[17,"#,
        r#"17],"pos":7,"mimes":["mimes-x","mimes-x"],"topframe":1,"expdir":[5,5],"api":[6,6],"i"#,
        r#"d":"id-x","vcm":1,"ext":{"k":"v","n":[1,{"z":null}]}}],"api":[6,6],"companiontype":["#,
        r#"3,3],"maxseq":7,"feed":3,"stitched":1,"nvol":4,"ext":{"k":"v","n":[1,{"z":null}]}}"#,
    ]
    .concat();
    let o1 = from_str::<Audio>(&json).unwrap();
    assert_eq!(to_string(&o1), json);
    assert_eq!(from_str::<Audio>(&to_string(&o1)).unwrap(), o1);
    assert_ne!(o1, Audio::default());
}

#[test]
fn native_with_every_member() {
    let json = [
        r#"{"request":"request-x","ver":"ver-x","api":[6,6],"battr":[17,17],"ext":{"k":"v","n":"#,
        r#"[1,{"z":null}]}}"#,
    ]
    .concat();
    let o1 = from_str::<Native>(&json).unwrap();
    assert_eq!(to_string(&o1), json);
    assert_eq!(from_str::<Native>(&to_string(&o1)).unwrap(), o1);
    assert_ne!(o1, Native::default());
}

#[test]
fn format_with_every_member() {
    let json = r#"{"w":7,"h":7,"wratio":7,"hratio":7,"wmin":7,"ext":{"k":"v","n":[1,{"z":null}]}}"#;
    let o1 = from_str::<Format>(json).unwrap();
    assert_eq!(to_string(&o1), json);
    assert_eq!(from_str::<Format>(&to_string(&o1)).unwrap(), o1);
    assert_ne!(o1, Format::default());
}

#[test]
fn pmp_with_every_member() {
    let json = [
        r#"{"private_auction":1,"deals":[{"id":"id-x","bidfloor":1.5,"bidfloorcur":"bidfloorcur"#,
        r#"-x","at":1,"wseat":["wseat-x","wseat-x"],"wadomain":["wadomain-x","wadomain-x"],"ext"#,
        r#"":{"k":"v","n":[1,{"z":null}]}}],"ext":{"k":"v","n":[1,{"z":null}]}}"#,
    ]
    .concat();
    let o1 = from_str::<Pmp>(&json).unwrap();
    assert_eq!(to_string(&o1), json);
    assert_eq!(from_str::<Pmp>(&to_string(&o1)).unwrap(), o1);
    assert_ne!(o1, Pmp::default());
}

#[test]
fn deal_with_every_member() {
    let json = [
        r#"{"id":"id-x","bidfloor":1.5,"bidfloorcur":"bidfloorcur-x","at":1,"wseat":["wseat-x","#,
        r#""wseat-x"],"wadomain":["wadomain-x","wadomain-x"],"ext":{"k":"v","n":[1,{"z":null}]}"#,
        r#"}"#,
    ]
    .concat();
    let o1 = from_str::<Deal>(&json).unwrap();
    assert_eq!(to_string(&o1), json);
    assert_eq!(from_str::<Deal>(&to_string(&o1)).unwrap(), o1);
    assert_ne!(o1, Deal::default());
}

#[test]
fn site_with_every_member() {
    let json = [
        r#"{"id":"id-x","name":"name-x","domain":"domain-x","cat":["IAB2-3","IAB2-3"],"sectionc"#,
        r#"at":["IAB2-3","IAB2-3"],"pagecat":["IAB2-3","IAB2-3"],"page":"page-x","ref":"ref-x","#,
        r#""search":"search-x","mobile":1,"privacypolicy":1,"publisher":{"id":"id-x","name":"na"#,
        r#"me-x","cat":["IAB2-3","IAB2-3"],"domain":"domain-x","ext":{"k":"v","n":[1,{"z":null}"#,
        r#"]}},"content":{"id":"id-x","episode":7,"title":"title-x","series":"series-x","season"#,
        r#"":"season-x","artist":"artist-x","genre":"genre-x","album":"album-x","isrc":"isrc-x""#,
        r#","producer":{"id":"id-x","name":"name-x","cat":["IAB2-3","IAB2-3"],"domain":"domain-"#,
        r#"x","ext":{"k":"v","n":[1,{"z":null}]}},"url":"url-x","cat":["IAB2-3","IAB2-3"],"prod"#,
        r#"q":3,"context":7,"contentrating":"contentrating-x","userrating":"userrating-x","qagm"#,
        r#"ediarating":3,"keywords":"keywords-x","livestream":1,"sourcerelationship":1,"len":7,"#,
        r#""language":"language-x","embeddable":1,"data":[{"id":"id-x","name":"name-x","segment"#,
        r#"":[{"id":"id-x","name":"name-x","value":"value-x","ext":{"k":"v","n":[1,{"z":null}]}"#,
        r#"}],"ext":{"k":"v","n":[1,{"z":null}]}}],"ext":{"k":"v","n":[1,{"z":null}]}},"keyword"#,
        r#"s":"keywords-x","ext":{"k":"v","n":[1,{"z":null}]}}"#,
    ]
    .concat();
    let o1 = from_str::<Site>(&json).unwrap();
    assert_eq!(to_string(&o1), json);
    assert_eq!(from_str::<Site>(&to_string(&o1)).unwrap(), o1);
    assert_ne!(o1, Site::default());
}

#[test]
fn app_with_every_member() {
    let json = [
        r#"{"id":"id-x","name":"name-x","bundle":"bundle-x","domain":"domain-x","storeurl":"sto"#,
        r#"reurl-x","cat":["IAB2-3","IAB2-3"],"sectioncat":["IAB2-3","IAB2-3"],"pagecat":["IAB2"#,
        r#"-3","IAB2-3"],"ver":"ver-x","privacypolicy":1,"paid":1,"publisher":{"id":"id-x","nam"#,
        r#"e":"name-x","cat":["IAB2-3","IAB2-3"],"domain":"domain-x","ext":{"k":"v","n":[1,{"z""#,
        r#":null}]}},"content":{"id":"id-x","episode":7,"title":"title-x","series":"series-x",""#,
        r#"season":"season-x","artist":"artist-x","genre":"genre-x","album":"album-x","isrc":"i"#,
        r#"src-x","producer":{"id":"id-x","name":"name-x","cat":["IAB2-3","IAB2-3"],"domain":"d"#,
        r#"omain-x","ext":{"k":"v","n":[1,{"z":null}]}},"url":"url-x","cat":["IAB2-3","IAB2-3"]"#,
        r#","prodq":3,"context":7,"contentrating":"contentrating-x","userrating":"userrating-x""#,
        r#","qagmediarating":3,"keywords":"keywords-x","livestream":1,"sourcerelationship":1,"l"#,
        r#"en":7,"language":"language-x","embeddable":1,"data":[{"id":"id-x","name":"name-x","s"#,
        r#"egment":[{"id":"id-x","name":"name-x","value":"value-x","ext":{"k":"v","n":[1,{"z":n"#,
        r#"ull}]}}],"ext":{"k":"v","n":[1,{"z":null}]}}],"ext":{"k":"v","n":[1,{"z":null}]}},"k"#,
        r#"eywords":"keywords-x","ext":{"k":"v","n":[1,{"z":null}]}}"#,
    ]
    .concat();
    let o1 = from_str::<App>(&json).unwrap();
    assert_eq!(to_string(&o1), json);
    assert_eq!(from_str::<App>(&to_string(&o1)).unwrap(), o1);
    assert_ne!(o1, App::default());
}

#[test]
fn publisher_with_every_member() {
    let json = [
        r#"{"id":"id-x","name":"name-x","cat":["IAB2-3","IAB2-3"],"domain":"domain-x","ext":{"k"#,
        r#"":"v","n":[1,{"z":null}]}}"#,
    ]
    .concat();
    let o1 = from_str::<Publisher>(&json).unwrap();
    assert_eq!(to_string(&o1), json);
    assert_eq!(from_str::<Publisher>(&to_string(&o1)).unwrap(), o1);
    assert_ne!(o1, Publisher::default());
}

#[test]
fn content_with_every_member() {
    let json = [
        r#"{"id":"id-x","episode":7,"title":"title-x","series":"series-x","season":"season-x",""#,
        r#"artist":"artist-x","genre":"genre-x","album":"album-x","isrc":"isrc-x","producer":{""#,
        r#"id":"id-x","name":"name-x","cat":["IAB2-3","IAB2-3"],"domain":"domain-x","ext":{"k":"#,
        r#""v","n":[1,{"z":null}]}},"url":"url-x","cat":["IAB2-3","IAB2-3"],"prodq":3,"context""#,
        r#":7,"contentrating":"contentrating-x","userrating":"userrating-x","qagmediarating":3,"#,
        r#""keywords":"keywords-x","livestream":1,"sourcerelationship":1,"len":7,"language":"la"#,
        r#"nguage-x","embeddable":1,"data":[{"id":"id-x","name":"name-x","segment":[{"id":"id-x"#,
        r#"","name":"name-x","value":"value-x","ext":{"k":"v","n":[1,{"z":null}]}}],"ext":{"k":"#,
        r#""v","n":[1,{"z":null}]}}],"ext":{"k":"v","n":[1,{"z":null}]}}"#,
    ]
    .concat();
    let o1 = from_str::<Content>(&json).unwrap();
    assert_eq!(to_string(&o1), json);
    assert_eq!(from_str::<Content>(&to_string(&o1)).unwrap(), o1);
    assert_ne!(o1, Content::default());
}

#[test]
fn producer_with_every_member() {
    let json = [
        r#"{"id":"id-x","name":"name-x","cat":["IAB2-3","IAB2-3"],"domain":"domain-x","ext":{"k"#,
        r#"":"v","n":[1,{"z":null}]}}"#,
    ]
    .concat();
    let o1 = from_str::<Producer>(&json).unwrap();
    assert_eq!(to_string(&o1), json);
    assert_eq!(from_str::<Producer>(&to_string(&o1)).unwrap(), o1);
    assert_ne!(o1, Producer::default());
}

#[test]
fn device_with_every_member() {
    let json = [
        r#"{"ua":"ua-x","geo":{"lat":1.5,"lon":1.5,"type":3,"accuracy":7,"lastfix":7,"ipservice"#,
        r#"":4,"country":"country-x","region":"region-x","regionfips104":"regionfips104-x","met"#,
        r#"ro":"metro-x","city":"city-x","zip":"zip-x","utcoffset":7,"ext":{"k":"v","n":[1,{"z""#,
        r#":null}]}},"dnt":1,"lmt":1,"ip":"ip-x","ipv6":"ipv6-x","devicetype":7,"make":"make-x""#,
        r#","model":"model-x","os":"os-x","osv":"osv-x","hwv":"hwv-x","h":7,"w":7,"ppi":7,"pxra"#,
        r#"tio":1.5,"js":1,"geofetch":1,"flashver":"flashver-x","language":"language-x","carrie"#,
        r#"r":"carrier-x","mccmnc":"mccmnc-x","connectiontype":6,"ifa":"ifa-x","didsha1":"didsh"#,
        r#"a1-x","didmd5":"didmd5-x","dpidsha1":"dpidsha1-x","dpidmd5":"dpidmd5-x","macsha1":"m"#,
        r#"acsha1-x","macmd5":"macmd5-x","ext":{"k":"v","n":[1,{"z":null}]}}"#,
    ]
    .concat();
    let o1 = from_str::<Device>(&json).unwrap();
    assert_eq!(to_string(&o1), json);
    assert_eq!(from_str::<Device>(&to_string(&o1)).unwrap(), o1);
    assert_ne!(o1, Device::default());
}

#[test]
fn geo_with_every_member() {
    let json = [
        r#"{"lat":1.5,"lon":1.5,"type":3,"accuracy":7,"lastfix":7,"ipservice":4,"country":"coun"#,
        r#"try-x","region":"region-x","regionfips104":"regionfips104-x","metro":"metro-x","city"#,
        r#"":"city-x","zip":"zip-x","utcoffset":7,"ext":{"k":"v","n":[1,{"z":null}]}}"#,
    ]
    .concat();
    let o1 = from_str::<Geo>(&json).unwrap();
    assert_eq!(to_string(&o1), json);
    assert_eq!(from_str::<Geo>(&to_string(&o1)).unwrap(), o1);
    assert_ne!(o1, Geo::default());
}

#[test]
fn user_with_every_member() {
    let json = [
        r#"{"id":"id-x","buyeruid":"buyeruid-x","yob":7,"gender":"F","keywords":"keywords-x","c"#,
        r#"ustomdata":"customdata-x","geo":{"lat":1.5,"lon":1.5,"type":3,"accuracy":7,"lastfix""#,
        r#":7,"ipservice":4,"country":"country-x","region":"region-x","regionfips104":"regionfi"#,
        r#"ps104-x","metro":"metro-x","city":"city-x","zip":"zip-x","utcoffset":7,"ext":{"k":"v"#,
        r#"","n":[1,{"z":null}]}},"data":[{"id":"id-x","name":"name-x","segment":[{"id":"id-x","#,
        r#""name":"name-x","value":"value-x","ext":{"k":"v","n":[1,{"z":null}]}}],"ext":{"k":"v"#,
        r#"","n":[1,{"z":null}]}}],"ext":{"k":"v","n":[1,{"z":null}]}}"#,
    ]
    .concat();
    let o1 = from_str::<User>(&json).unwrap();
    assert_eq!(to_string(&o1), json);
    assert_eq!(from_str::<User>(&to_string(&o1)).unwrap(), o1);
    assert_ne!(o1, User::default());
}

#[test]
fn data_with_every_member() {
    let json = [
        r#"{"id":"id-x","name":"name-x","segment":[{"id":"id-x","name":"name-x","value":"value-"#,
        r#"x","ext":{"k":"v","n":[1,{"z":null}]}}],"ext":{"k":"v","n":[1,{"z":null}]}}"#,
    ]
    .concat();
    let o1 = from_str::<Data>(&json).unwrap();
    assert_eq!(to_string(&o1), json);
    assert_eq!(from_str::<Data>(&to_string(&o1)).unwrap(), o1);
    assert_ne!(o1, Data::default());
}

#[test]
fn segment_with_every_member() {
    let json = r#"{"id":"id-x","name":"name-x","value":"value-x","ext":{"k":"v","n":[1,{"z":null}]}}"#;
    let o1 = from_str::<Segment>(json).unwrap();
    assert_eq!(to_string(&o1), json);
    assert_eq!(from_str::<Segment>(&to_string(&o1)).unwrap(), o1);
    assert_ne!(o1, Segment::default());
}

#[test]
fn bid_response_with_every_member() {
    let json = [
        r#"{"id":"id-x","seatbid":[{"bid":[{"id":"id-x","impid":"impid-x","price":1.5,"nurl":"n"#,
        r#"url-x","burl":"burl-x","lurl":"lurl-x","adm":"adm-x","adid":"adid-x","adomain":["ado"#,
        r#"main-x","adomain-x"],"bundle":"bundle-x","iurl":"iurl-x","cid":"cid-x","crid":"crid-"#,
        r#"x","tactic":"tactic-x","cat":["IAB2-3","IAB2-3"],"attr":[17,17],"api":6,"protocol":1"#,
        r#"0,"qagmediarating":3,"language":"language-x","dealid":"dealid-x","w":7,"h":7,"wratio"#,
        r#"":7,"hratio":7,"exp":7,"ext":{"k":"v","n":[1,{"z":null}]}}],"seat":"seat-x","group":"#,
        r#"1,"ext":{"k":"v","n":[1,{"z":null}]}}],"bidid":"bidid-x","cur":"cur-x","customdata":"#,
        r#""customdata-x","nbr":10,"ext":{"k":"v","n":[1,{"z":null}]}}"#,
    ]
    .concat();
    let o1 = from_str::<BidResponse>(&json).unwrap();
    assert_eq!(to_string(&o1), json);
    assert_eq!(from_str::<BidResponse>(&to_string(&o1)).unwrap(), o1);
    assert_ne!(o1, BidResponse::default());
}

#[test]
fn seat_bid_with_every_member() {
    let json = [
        r#"{"bid":[{"id":"id-x","impid":"impid-x","price":1.5,"nurl":"nurl-x","burl":"burl-x",""#,
        r#"lurl":"lurl-x","adm":"adm-x","adid":"adid-x","adomain":["adomain-x","adomain-x"],"bu"#,
        r#"ndle":"bundle-x","iurl":"iurl-x","cid":"cid-x","crid":"crid-x","tactic":"tactic-x",""#,
        r#"cat":["IAB2-3","IAB2-3"],"attr":[17,17],"api":6,"protocol":10,"qagmediarating":3,"la"#,
        r#"nguage":"language-x","dealid":"dealid-x","w":7,"h":7,"wratio":7,"hratio":7,"exp":7,""#,
        r#"ext":{"k":"v","n":[1,{"z":null}]}}],"seat":"seat-x","group":1,"ext":{"k":"v","n":[1,"#,
        r#"{"z":null}]}}"#,
    ]
    .concat();
    let o1 = from_str::<SeatBid>(&json).unwrap();
    assert_eq!(to_string(&o1), json);
    assert_eq!(from_str::<SeatBid>(&to_string(&o1)).unwrap(), o1);
    assert_ne!(o1, SeatBid::default());
}

#[test]
fn bid_with_every_member() {
    let json = [
        r#"{"id":"id-x","impid":"impid-x","price":1.5,"nurl":"nurl-x","burl":"burl-x","lurl":"l"#,
        r#"url-x","adm":"adm-x","adid":"adid-x","adomain":["adomain-x","adomain-x"],"bundle":"b"#,
        r#"undle-x","iurl":"iurl-x","cid":"cid-x","crid":"crid-x","tactic":"tactic-x","cat":["I"#,
        r#"AB2-3","IAB2-3"],"attr":[17,17],"api":6,"protocol":10,"qagmediarating":3,"language":"#,
        r#""language-x","dealid":"dealid-x","w":7,"h":7,"wratio":7,"hratio":7,"exp":7,"ext":{"k"#,
        r#"":"v","n":[1,{"z":null}]}}"#,
    ]
    .concat();
    let o1 = from_str::<Bid>(&json).unwrap();
    assert_eq!(to_string(&o1), json);
    assert_eq!(from_str::<Bid>(&to_string(&o1)).unwrap(), o1);
    assert_ne!(o1, Bid::default());
}
