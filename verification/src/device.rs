//! The Device object (OpenRTB 2.5, section 3.2.18).

use vstd::prelude::*;
use serde_json::{Number, Value};
use crate::codec::{
    Codec, current_option, get_option, lemma_lookup_with, lemma_lookup_with_some,
    lemma_lookup_with_unless, lemma_optional, lemma_optional_valid, model_of_option, optional,
    put_some, valid_option, with_some, written,
};
use crate::connection_type::ConnectionType;
use crate::device_type::DeviceType;
use crate::error::{Error, ErrorView};
use crate::geo::{Geo, GeoView};
use crate::json::{Json, Members, Num, lemma_lookup_empty, lookup};
use crate::value::value_from_map;

verus! {

/// Device (OpenRTB 2.5, section 3.2.18).
///
/// This object provides information pertaining to the device through which the user is
/// interacting. Device information includes its hardware, platform, location, and carrier data.
/// The device can refer to a mobile handset, a desktop computer, set top box, or other digital
/// device.
#[derive(Clone, Debug, PartialEq)]
pub struct Device {
    /// Browser user agent string.
    pub ua: Option<String>,
    /// Location of the device assumed to be the user's current location defined by a Geo object
    /// (Section 3.2.19).
    pub geo: Option<Geo>,
    /// Standard "Do Not Track" flag as set in the header by the browser, where 0 = tracking is
    /// unrestricted, 1 = do not track.
    pub dnt: Option<bool>,
    /// "Limit Ad Tracking" signal commercially endorsed (e.g., iOS, Android), where 0 =
    /// tracking is unrestricted, 1 = tracking must be limited per commercial guidelines.
    pub lmt: Option<bool>,
    /// IPv4 address closest to device.
    pub ip: Option<String>,
    /// IP address closest to device as IPv6.
    pub ipv6: Option<String>,
    /// The general type of device. Refer to List 5.21.
    pub devicetype: Option<DeviceType>,
    /// Device make (e.g., "Apple").
    pub make: Option<String>,
    /// Device model (e.g., "iPhone").
    pub model: Option<String>,
    /// Device operating system (e.g., "iOS").
    pub os: Option<String>,
    /// Device operating system version (e.g., "3.1.2").
    pub osv: Option<String>,
    /// Hardware version of the device (e.g., "5S" for iPhone 5S).
    pub hwv: Option<String>,
    /// Physical height of the screen in pixels.
    pub h: Option<i32>,
    /// Physical width of the screen in pixels.
    pub w: Option<i32>,
    /// Screen size as pixels per linear inch.
    pub ppi: Option<i32>,
    /// The ratio of physical pixels to device independent pixels.
    pub pxratio: Option<Number>,
    /// Support for JavaScript, where 0 = no, 1 = yes.
    pub js: Option<bool>,
    /// Indicates if the geolocation API will be available to JavaScript code running in the
    /// banner, where 0 = no, 1 = yes.
    pub geofetch: Option<bool>,
    /// Version of Flash supported by the browser.
    pub flashver: Option<String>,
    /// Browser language using ISO-639-1-alpha-2.
    pub language: Option<String>,
    /// Carrier or ISP (e.g., "VERIZON") using exchange curated string names which should be
    /// published to bidders a priori.
    pub carrier: Option<String>,
    /// Mobile carrier as the concatenated MCC-MNC code (e.g., "310-005" identifies Verizon
    /// Wireless CDMA in the USA). Refer to https://en.wikipedia.org/wiki/Mobile_country_code
    /// for further examples. Note that the dash between the MCC and MNC parts is required to
    /// remove parsing ambiguity.
    pub mccmnc: Option<String>,
    /// Network connection type. Refer to List 5.22.
    pub connectiontype: Option<ConnectionType>,
    /// ID sanctioned for advertiser use in the clear (i.e., not hashed).
    pub ifa: Option<String>,
    /// Hardware device ID (e.g., IMEI); hashed via SHA1.
    pub didsha1: Option<String>,
    /// Hardware device ID (e.g., IMEI); hashed via MD5.
    pub didmd5: Option<String>,
    /// Platform device ID (e.g., Android ID); hashed via SHA1.
    pub dpidsha1: Option<String>,
    /// Platform device ID (e.g., Android ID); hashed via MD5.
    pub dpidmd5: Option<String>,
    /// MAC address of the device; hashed via SHA1.
    pub macsha1: Option<String>,
    /// MAC address of the device; hashed via MD5.
    pub macmd5: Option<String>,
    /// Placeholder for exchange-specific extensions to OpenRTB.
    pub ext: Option<serde_json::Map<String, Value>>,
}

/// The model of a [`Device`]: the same fields, as plain values.
pub struct DeviceView {
    pub ua: Option<Seq<char>>,
    pub geo: Option<GeoView>,
    pub dnt: Option<bool>,
    pub lmt: Option<bool>,
    pub ip: Option<Seq<char>>,
    pub ipv6: Option<Seq<char>>,
    pub devicetype: Option<DeviceType>,
    pub make: Option<Seq<char>>,
    pub model: Option<Seq<char>>,
    pub os: Option<Seq<char>>,
    pub osv: Option<Seq<char>>,
    pub hwv: Option<Seq<char>>,
    pub h: Option<i32>,
    pub w: Option<i32>,
    pub ppi: Option<i32>,
    pub pxratio: Option<Num>,
    pub js: Option<bool>,
    pub geofetch: Option<bool>,
    pub flashver: Option<Seq<char>>,
    pub language: Option<Seq<char>>,
    pub carrier: Option<Seq<char>>,
    pub mccmnc: Option<Seq<char>>,
    pub connectiontype: Option<ConnectionType>,
    pub ifa: Option<Seq<char>>,
    pub didsha1: Option<Seq<char>>,
    pub didmd5: Option<Seq<char>>,
    pub dpidsha1: Option<Seq<char>>,
    pub dpidmd5: Option<Seq<char>>,
    pub macsha1: Option<Seq<char>>,
    pub macmd5: Option<Seq<char>>,
    pub ext: Option<Members>,
}

impl DeviceView {
    /// The value that [`Device::default`] stands for.
    pub open spec fn default() -> DeviceView {
        DeviceView {
            ua: None,
            geo: None,
            dnt: None,
            lmt: None,
            ip: None,
            ipv6: None,
            devicetype: None,
            make: None,
            model: None,
            os: None,
            osv: None,
            hwv: None,
            h: None,
            w: None,
            ppi: None,
            pxratio: None,
            js: None,
            geofetch: None,
            flashver: None,
            language: None,
            carrier: None,
            mccmnc: None,
            connectiontype: None,
            ifa: None,
            didsha1: None,
            didmd5: None,
            dpidsha1: None,
            dpidmd5: None,
            macsha1: None,
            macmd5: None,
            ext: None,
        }
    }

    /// Whether encoding this value and decoding it again yields it: each part of it is
    /// valid.
    pub open spec fn valid(self) -> bool {
        &&& valid_option::<Geo>(self.geo)
    }

    /// Whether no deprecated field is set in this value, at any depth.
    pub open spec fn current(self) -> bool {
        &&& current_option::<Geo>(self.geo)
    }

    /// The members that this value is encoded to, in order.
    pub open spec fn members(self) -> Members {
        let m = Seq::<(Seq<char>, Json)>::empty();
        let m = with_some::<String>(m, "ua"@, self.ua);
        let m = with_some::<Geo>(m, "geo"@, self.geo);
        let m = with_some::<bool>(m, "dnt"@, self.dnt);
        let m = with_some::<bool>(m, "lmt"@, self.lmt);
        let m = with_some::<String>(m, "ip"@, self.ip);
        let m = with_some::<String>(m, "ipv6"@, self.ipv6);
        let m = with_some::<DeviceType>(m, "devicetype"@, self.devicetype);
        let m = with_some::<String>(m, "make"@, self.make);
        let m = with_some::<String>(m, "model"@, self.model);
        let m = with_some::<String>(m, "os"@, self.os);
        let m = with_some::<String>(m, "osv"@, self.osv);
        let m = with_some::<String>(m, "hwv"@, self.hwv);
        let m = with_some::<i32>(m, "h"@, self.h);
        let m = with_some::<i32>(m, "w"@, self.w);
        let m = with_some::<i32>(m, "ppi"@, self.ppi);
        let m = with_some::<Number>(m, "pxratio"@, self.pxratio);
        let m = with_some::<bool>(m, "js"@, self.js);
        let m = with_some::<bool>(m, "geofetch"@, self.geofetch);
        let m = with_some::<String>(m, "flashver"@, self.flashver);
        let m = with_some::<String>(m, "language"@, self.language);
        let m = with_some::<String>(m, "carrier"@, self.carrier);
        let m = with_some::<String>(m, "mccmnc"@, self.mccmnc);
        let m = with_some::<ConnectionType>(m, "connectiontype"@, self.connectiontype);
        let m = with_some::<String>(m, "ifa"@, self.ifa);
        let m = with_some::<String>(m, "didsha1"@, self.didsha1);
        let m = with_some::<String>(m, "didmd5"@, self.didmd5);
        let m = with_some::<String>(m, "dpidsha1"@, self.dpidsha1);
        let m = with_some::<String>(m, "dpidmd5"@, self.dpidmd5);
        let m = with_some::<String>(m, "macsha1"@, self.macsha1);
        let m = with_some::<String>(m, "macmd5"@, self.macmd5);
        let m = with_some::<serde_json::Map<String, Value>>(m, "ext"@, self.ext);
        m
    }

    /// What decoding an object of these members yields: the value, or the error of the
    /// first field, in the order of the fields, whose member is not accepted.
    pub open spec fn of_members(members: Members) -> Result<DeviceView, ErrorView> {
        let ua = optional::<String>(members, "ua"@);
        let geo = optional::<Geo>(members, "geo"@);
        let dnt = optional::<bool>(members, "dnt"@);
        let lmt = optional::<bool>(members, "lmt"@);
        let ip = optional::<String>(members, "ip"@);
        let ipv6 = optional::<String>(members, "ipv6"@);
        let devicetype = optional::<DeviceType>(members, "devicetype"@);
        let make = optional::<String>(members, "make"@);
        let model = optional::<String>(members, "model"@);
        let os = optional::<String>(members, "os"@);
        let osv = optional::<String>(members, "osv"@);
        let hwv = optional::<String>(members, "hwv"@);
        let h = optional::<i32>(members, "h"@);
        let w = optional::<i32>(members, "w"@);
        let ppi = optional::<i32>(members, "ppi"@);
        let pxratio = optional::<Number>(members, "pxratio"@);
        let js = optional::<bool>(members, "js"@);
        let geofetch = optional::<bool>(members, "geofetch"@);
        let flashver = optional::<String>(members, "flashver"@);
        let language = optional::<String>(members, "language"@);
        let carrier = optional::<String>(members, "carrier"@);
        let mccmnc = optional::<String>(members, "mccmnc"@);
        let connectiontype = optional::<ConnectionType>(members, "connectiontype"@);
        let ifa = optional::<String>(members, "ifa"@);
        let didsha1 = optional::<String>(members, "didsha1"@);
        let didmd5 = optional::<String>(members, "didmd5"@);
        let dpidsha1 = optional::<String>(members, "dpidsha1"@);
        let dpidmd5 = optional::<String>(members, "dpidmd5"@);
        let macsha1 = optional::<String>(members, "macsha1"@);
        let macmd5 = optional::<String>(members, "macmd5"@);
        let ext = optional::<serde_json::Map<String, Value>>(members, "ext"@);
        if ua is Err {
            Err(ua->Err_0)
        } else if geo is Err {
            Err(geo->Err_0)
        } else if dnt is Err {
            Err(dnt->Err_0)
        } else if lmt is Err {
            Err(lmt->Err_0)
        } else if ip is Err {
            Err(ip->Err_0)
        } else if ipv6 is Err {
            Err(ipv6->Err_0)
        } else if devicetype is Err {
            Err(devicetype->Err_0)
        } else if make is Err {
            Err(make->Err_0)
        } else if model is Err {
            Err(model->Err_0)
        } else if os is Err {
            Err(os->Err_0)
        } else if osv is Err {
            Err(osv->Err_0)
        } else if hwv is Err {
            Err(hwv->Err_0)
        } else if h is Err {
            Err(h->Err_0)
        } else if w is Err {
            Err(w->Err_0)
        } else if ppi is Err {
            Err(ppi->Err_0)
        } else if pxratio is Err {
            Err(pxratio->Err_0)
        } else if js is Err {
            Err(js->Err_0)
        } else if geofetch is Err {
            Err(geofetch->Err_0)
        } else if flashver is Err {
            Err(flashver->Err_0)
        } else if language is Err {
            Err(language->Err_0)
        } else if carrier is Err {
            Err(carrier->Err_0)
        } else if mccmnc is Err {
            Err(mccmnc->Err_0)
        } else if connectiontype is Err {
            Err(connectiontype->Err_0)
        } else if ifa is Err {
            Err(ifa->Err_0)
        } else if didsha1 is Err {
            Err(didsha1->Err_0)
        } else if didmd5 is Err {
            Err(didmd5->Err_0)
        } else if dpidsha1 is Err {
            Err(dpidsha1->Err_0)
        } else if dpidmd5 is Err {
            Err(dpidmd5->Err_0)
        } else if macsha1 is Err {
            Err(macsha1->Err_0)
        } else if macmd5 is Err {
            Err(macmd5->Err_0)
        } else if ext is Err {
            Err(ext->Err_0)
        } else {
            Ok(DeviceView {
                ua: ua->Ok_0,
                geo: geo->Ok_0,
                dnt: dnt->Ok_0,
                lmt: lmt->Ok_0,
                ip: ip->Ok_0,
                ipv6: ipv6->Ok_0,
                devicetype: devicetype->Ok_0,
                make: make->Ok_0,
                model: model->Ok_0,
                os: os->Ok_0,
                osv: osv->Ok_0,
                hwv: hwv->Ok_0,
                h: h->Ok_0,
                w: w->Ok_0,
                ppi: ppi->Ok_0,
                pxratio: pxratio->Ok_0,
                js: js->Ok_0,
                geofetch: geofetch->Ok_0,
                flashver: flashver->Ok_0,
                language: language->Ok_0,
                carrier: carrier->Ok_0,
                mccmnc: mccmnc->Ok_0,
                connectiontype: connectiontype->Ok_0,
                ifa: ifa->Ok_0,
                didsha1: didsha1->Ok_0,
                didmd5: didmd5->Ok_0,
                dpidsha1: dpidsha1->Ok_0,
                dpidmd5: dpidmd5->Ok_0,
                macsha1: macsha1->Ok_0,
                macmd5: macmd5->Ok_0,
                ext: ext->Ok_0,
            })
        }
    }
}

impl Default for Device {
    /// The value whose optional fields are absent and whose other fields have their
    /// defaults.
    fn default() -> (r: Device)
        ensures
            r.model() == DeviceView::default(),
    {
        Device {
            ua: None,
            geo: None,
            dnt: None,
            lmt: None,
            ip: None,
            ipv6: None,
            devicetype: None,
            make: None,
            model: None,
            os: None,
            osv: None,
            hwv: None,
            h: None,
            w: None,
            ppi: None,
            pxratio: None,
            js: None,
            geofetch: None,
            flashver: None,
            language: None,
            carrier: None,
            mccmnc: None,
            connectiontype: None,
            ifa: None,
            didsha1: None,
            didmd5: None,
            dpidsha1: None,
            dpidmd5: None,
            macsha1: None,
            macmd5: None,
            ext: None,
        }
    }
}

/// The lengths of the keys, and the letters that tell keys of one length apart: no two
/// keys are the same.
proof fn lemma_keys()
    ensures
        "ua"@.len() == 2 && "ua"@[0] == 'u',
        "geo"@.len() == 3 && "geo"@[0] == 'g',
        "dnt"@.len() == 3 && "dnt"@[0] == 'd',
        "lmt"@.len() == 3 && "lmt"@[0] == 'l',
        "ip"@.len() == 2 && "ip"@[0] == 'i',
        "ipv6"@.len() == 4 && "ipv6"@[0] == 'i',
        "devicetype"@.len() == 10,
        "make"@.len() == 4 && "make"@[0] == 'm',
        "model"@.len() == 5,
        "os"@.len() == 2 && "os"@[0] == 'o',
        "osv"@.len() == 3 && "osv"@[0] == 'o',
        "hwv"@.len() == 3 && "hwv"@[0] == 'h',
        "h"@.len() == 1 && "h"@[0] == 'h',
        "w"@.len() == 1 && "w"@[0] == 'w',
        "ppi"@.len() == 3 && "ppi"@[0] == 'p',
        "pxratio"@.len() == 7 && "pxratio"@[0] == 'p' && "pxratio"@[1] == 'x',
        "js"@.len() == 2 && "js"@[0] == 'j',
        "geofetch"@.len() == 8 && "geofetch"@[0] == 'g',
        "flashver"@.len() == 8 && "flashver"@[0] == 'f',
        "language"@.len() == 8 && "language"@[0] == 'l',
        "carrier"@.len() == 7 && "carrier"@[0] == 'c' && "carrier"@[1] == 'a',
        "mccmnc"@.len() == 6 && "mccmnc"@[1] == 'c',
        "connectiontype"@.len() == 14,
        "ifa"@.len() == 3 && "ifa"@[0] == 'i',
        "didsha1"@.len() == 7 && "didsha1"@[0] == 'd' && "didsha1"@[1] == 'i',
        "didmd5"@.len() == 6 && "didmd5"@[1] == 'i',
        "dpidsha1"@.len() == 8 && "dpidsha1"@[0] == 'd',
        "dpidmd5"@.len() == 7 && "dpidmd5"@[0] == 'd' && "dpidmd5"@[1] == 'p',
        "macsha1"@.len() == 7 && "macsha1"@[0] == 'm' && "macsha1"@[1] == 'a',
        "macmd5"@.len() == 6 && "macmd5"@[1] == 'a',
        "ext"@.len() == 3 && "ext"@[0] == 'e',
{
    reveal_strlit("ua");
    reveal_strlit("geo");
    reveal_strlit("dnt");
    reveal_strlit("lmt");
    reveal_strlit("ip");
    reveal_strlit("ipv6");
    reveal_strlit("devicetype");
    reveal_strlit("make");
    reveal_strlit("model");
    reveal_strlit("os");
    reveal_strlit("osv");
    reveal_strlit("hwv");
    reveal_strlit("h");
    reveal_strlit("w");
    reveal_strlit("ppi");
    reveal_strlit("pxratio");
    reveal_strlit("js");
    reveal_strlit("geofetch");
    reveal_strlit("flashver");
    reveal_strlit("language");
    reveal_strlit("carrier");
    reveal_strlit("mccmnc");
    reveal_strlit("connectiontype");
    reveal_strlit("ifa");
    reveal_strlit("didsha1");
    reveal_strlit("didmd5");
    reveal_strlit("dpidsha1");
    reveal_strlit("dpidmd5");
    reveal_strlit("macsha1");
    reveal_strlit("macmd5");
    reveal_strlit("ext");
}

/// What is found under each key among the members that a value is encoded to.
proof fn lemma_members(m: DeviceView)
    ensures
        lookup(m.members(), "ua"@) == written::<String>(m.ua),
        lookup(m.members(), "geo"@) == written::<Geo>(m.geo),
        lookup(m.members(), "dnt"@) == written::<bool>(m.dnt),
        lookup(m.members(), "lmt"@) == written::<bool>(m.lmt),
        lookup(m.members(), "ip"@) == written::<String>(m.ip),
        lookup(m.members(), "ipv6"@) == written::<String>(m.ipv6),
        lookup(m.members(), "devicetype"@) == written::<DeviceType>(m.devicetype),
        lookup(m.members(), "make"@) == written::<String>(m.make),
        lookup(m.members(), "model"@) == written::<String>(m.model),
        lookup(m.members(), "os"@) == written::<String>(m.os),
        lookup(m.members(), "osv"@) == written::<String>(m.osv),
        lookup(m.members(), "hwv"@) == written::<String>(m.hwv),
        lookup(m.members(), "h"@) == written::<i32>(m.h),
        lookup(m.members(), "w"@) == written::<i32>(m.w),
        lookup(m.members(), "ppi"@) == written::<i32>(m.ppi),
        lookup(m.members(), "pxratio"@) == written::<Number>(m.pxratio),
        lookup(m.members(), "js"@) == written::<bool>(m.js),
        lookup(m.members(), "geofetch"@) == written::<bool>(m.geofetch),
        lookup(m.members(), "flashver"@) == written::<String>(m.flashver),
        lookup(m.members(), "language"@) == written::<String>(m.language),
        lookup(m.members(), "carrier"@) == written::<String>(m.carrier),
        lookup(m.members(), "mccmnc"@) == written::<String>(m.mccmnc),
        lookup(m.members(), "connectiontype"@) == written::<ConnectionType>(m.connectiontype),
        lookup(m.members(), "ifa"@) == written::<String>(m.ifa),
        lookup(m.members(), "didsha1"@) == written::<String>(m.didsha1),
        lookup(m.members(), "didmd5"@) == written::<String>(m.didmd5),
        lookup(m.members(), "dpidsha1"@) == written::<String>(m.dpidsha1),
        lookup(m.members(), "dpidmd5"@) == written::<String>(m.dpidmd5),
        lookup(m.members(), "macsha1"@) == written::<String>(m.macsha1),
        lookup(m.members(), "macmd5"@) == written::<String>(m.macmd5),
        lookup(m.members(), "ext"@) == written::<serde_json::Map<String, Value>>(m.ext),
{
    broadcast use {lemma_lookup_with, lemma_lookup_with_some, lemma_lookup_with_unless};
    lemma_keys();
    assert forall|key: Seq<char>| lookup(Seq::empty(), key) is None by {
        lemma_lookup_empty(key);
    }
}

impl Codec for Device {
    type Model = DeviceView;

    open spec fn model(&self) -> DeviceView {
        DeviceView {
            ua: model_of_option::<String>(self.ua),
            geo: model_of_option::<Geo>(self.geo),
            dnt: model_of_option::<bool>(self.dnt),
            lmt: model_of_option::<bool>(self.lmt),
            ip: model_of_option::<String>(self.ip),
            ipv6: model_of_option::<String>(self.ipv6),
            devicetype: model_of_option::<DeviceType>(self.devicetype),
            make: model_of_option::<String>(self.make),
            model: model_of_option::<String>(self.model),
            os: model_of_option::<String>(self.os),
            osv: model_of_option::<String>(self.osv),
            hwv: model_of_option::<String>(self.hwv),
            h: model_of_option::<i32>(self.h),
            w: model_of_option::<i32>(self.w),
            ppi: model_of_option::<i32>(self.ppi),
            pxratio: model_of_option::<Number>(self.pxratio),
            js: model_of_option::<bool>(self.js),
            geofetch: model_of_option::<bool>(self.geofetch),
            flashver: model_of_option::<String>(self.flashver),
            language: model_of_option::<String>(self.language),
            carrier: model_of_option::<String>(self.carrier),
            mccmnc: model_of_option::<String>(self.mccmnc),
            connectiontype: model_of_option::<ConnectionType>(self.connectiontype),
            ifa: model_of_option::<String>(self.ifa),
            didsha1: model_of_option::<String>(self.didsha1),
            didmd5: model_of_option::<String>(self.didmd5),
            dpidsha1: model_of_option::<String>(self.dpidsha1),
            dpidmd5: model_of_option::<String>(self.dpidmd5),
            macsha1: model_of_option::<String>(self.macsha1),
            macmd5: model_of_option::<String>(self.macmd5),
            ext: model_of_option::<serde_json::Map<String, Value>>(self.ext),
        }
    }

    open spec fn valid(m: DeviceView) -> bool {
        m.valid()
    }

    open spec fn current(m: DeviceView) -> bool {
        m.current()
    }

    open spec fn encoded(m: DeviceView) -> Json {
        Json::Object(m.members())
    }

    open spec fn decoded(json: Json) -> Result<DeviceView, ErrorView> {
        match json {
            Json::Object(members) => DeviceView::of_members(members),
            _ => Err(ErrorView::shape(json, "an object"@)),
        }
    }

    fn to_value(&self) -> (value: Value) {
        let mut map = serde_json::Map::new();
        put_some::<String>(&mut map, "ua", &self.ua);
        put_some::<Geo>(&mut map, "geo", &self.geo);
        put_some::<bool>(&mut map, "dnt", &self.dnt);
        put_some::<bool>(&mut map, "lmt", &self.lmt);
        put_some::<String>(&mut map, "ip", &self.ip);
        put_some::<String>(&mut map, "ipv6", &self.ipv6);
        put_some::<DeviceType>(&mut map, "devicetype", &self.devicetype);
        put_some::<String>(&mut map, "make", &self.make);
        put_some::<String>(&mut map, "model", &self.model);
        put_some::<String>(&mut map, "os", &self.os);
        put_some::<String>(&mut map, "osv", &self.osv);
        put_some::<String>(&mut map, "hwv", &self.hwv);
        put_some::<i32>(&mut map, "h", &self.h);
        put_some::<i32>(&mut map, "w", &self.w);
        put_some::<i32>(&mut map, "ppi", &self.ppi);
        put_some::<Number>(&mut map, "pxratio", &self.pxratio);
        put_some::<bool>(&mut map, "js", &self.js);
        put_some::<bool>(&mut map, "geofetch", &self.geofetch);
        put_some::<String>(&mut map, "flashver", &self.flashver);
        put_some::<String>(&mut map, "language", &self.language);
        put_some::<String>(&mut map, "carrier", &self.carrier);
        put_some::<String>(&mut map, "mccmnc", &self.mccmnc);
        put_some::<ConnectionType>(&mut map, "connectiontype", &self.connectiontype);
        put_some::<String>(&mut map, "ifa", &self.ifa);
        put_some::<String>(&mut map, "didsha1", &self.didsha1);
        put_some::<String>(&mut map, "didmd5", &self.didmd5);
        put_some::<String>(&mut map, "dpidsha1", &self.dpidsha1);
        put_some::<String>(&mut map, "dpidmd5", &self.dpidmd5);
        put_some::<String>(&mut map, "macsha1", &self.macsha1);
        put_some::<String>(&mut map, "macmd5", &self.macmd5);
        put_some::<serde_json::Map<String, Value>>(&mut map, "ext", &self.ext);
        value_from_map(map)
    }

    fn from_value(value: &Value) -> (r: Result<Device, Error>) {
        match value.as_object() {
            None => Err(Error::shape(value, "an object")),
            Some(map) => {
                let ua = get_option::<String>(map, "ua")?;
                let geo = get_option::<Geo>(map, "geo")?;
                let dnt = get_option::<bool>(map, "dnt")?;
                let lmt = get_option::<bool>(map, "lmt")?;
                let ip = get_option::<String>(map, "ip")?;
                let ipv6 = get_option::<String>(map, "ipv6")?;
                let devicetype = get_option::<DeviceType>(map, "devicetype")?;
                let make = get_option::<String>(map, "make")?;
                let model = get_option::<String>(map, "model")?;
                let os = get_option::<String>(map, "os")?;
                let osv = get_option::<String>(map, "osv")?;
                let hwv = get_option::<String>(map, "hwv")?;
                let h = get_option::<i32>(map, "h")?;
                let w = get_option::<i32>(map, "w")?;
                let ppi = get_option::<i32>(map, "ppi")?;
                let pxratio = get_option::<Number>(map, "pxratio")?;
                let js = get_option::<bool>(map, "js")?;
                let geofetch = get_option::<bool>(map, "geofetch")?;
                let flashver = get_option::<String>(map, "flashver")?;
                let language = get_option::<String>(map, "language")?;
                let carrier = get_option::<String>(map, "carrier")?;
                let mccmnc = get_option::<String>(map, "mccmnc")?;
                let connectiontype = get_option::<ConnectionType>(map, "connectiontype")?;
                let ifa = get_option::<String>(map, "ifa")?;
                let didsha1 = get_option::<String>(map, "didsha1")?;
                let didmd5 = get_option::<String>(map, "didmd5")?;
                let dpidsha1 = get_option::<String>(map, "dpidsha1")?;
                let dpidmd5 = get_option::<String>(map, "dpidmd5")?;
                let macsha1 = get_option::<String>(map, "macsha1")?;
                let macmd5 = get_option::<String>(map, "macmd5")?;
                let ext = get_option::<serde_json::Map<String, Value>>(map, "ext")?;
                Ok(Device {
                    ua, geo, dnt, lmt, ip, ipv6, devicetype, make, model, os, osv, hwv, h, w, ppi,
                    pxratio, js, geofetch, flashver, language, carrier, mccmnc, connectiontype, ifa,
                    didsha1, didmd5, dpidsha1, dpidmd5, macsha1, macmd5, ext,
                })
            },
        }
    }

    proof fn round_trip(m: DeviceView) {
        lemma_members(m);
        let members = m.members();
        lemma_optional::<String>(members, "ua"@, m.ua);
        lemma_optional::<Geo>(members, "geo"@, m.geo);
        lemma_optional::<bool>(members, "dnt"@, m.dnt);
        lemma_optional::<bool>(members, "lmt"@, m.lmt);
        lemma_optional::<String>(members, "ip"@, m.ip);
        lemma_optional::<String>(members, "ipv6"@, m.ipv6);
        lemma_optional::<DeviceType>(members, "devicetype"@, m.devicetype);
        lemma_optional::<String>(members, "make"@, m.make);
        lemma_optional::<String>(members, "model"@, m.model);
        lemma_optional::<String>(members, "os"@, m.os);
        lemma_optional::<String>(members, "osv"@, m.osv);
        lemma_optional::<String>(members, "hwv"@, m.hwv);
        lemma_optional::<i32>(members, "h"@, m.h);
        lemma_optional::<i32>(members, "w"@, m.w);
        lemma_optional::<i32>(members, "ppi"@, m.ppi);
        lemma_optional::<Number>(members, "pxratio"@, m.pxratio);
        lemma_optional::<bool>(members, "js"@, m.js);
        lemma_optional::<bool>(members, "geofetch"@, m.geofetch);
        lemma_optional::<String>(members, "flashver"@, m.flashver);
        lemma_optional::<String>(members, "language"@, m.language);
        lemma_optional::<String>(members, "carrier"@, m.carrier);
        lemma_optional::<String>(members, "mccmnc"@, m.mccmnc);
        lemma_optional::<ConnectionType>(members, "connectiontype"@, m.connectiontype);
        lemma_optional::<String>(members, "ifa"@, m.ifa);
        lemma_optional::<String>(members, "didsha1"@, m.didsha1);
        lemma_optional::<String>(members, "didmd5"@, m.didmd5);
        lemma_optional::<String>(members, "dpidsha1"@, m.dpidsha1);
        lemma_optional::<String>(members, "dpidmd5"@, m.dpidmd5);
        lemma_optional::<String>(members, "macsha1"@, m.macsha1);
        lemma_optional::<String>(members, "macmd5"@, m.macmd5);
        lemma_optional::<serde_json::Map<String, Value>>(members, "ext"@, m.ext);
    }

    proof fn decoded_valid(json: Json) {
        if let Json::Object(members) = json {
            lemma_optional_valid::<Geo>(members, "geo"@);
        }
    }
}

/// A default value is encoded to the least document: its required members, and no other.
pub proof fn default_is_minimal()
    ensures
        Device::encoded(DeviceView::default()) == Json::Object(Seq::empty()),
{
    reveal(with_some);
    let d = DeviceView::default();
    assert(d.members() =~= Seq::empty());
}

} // verus!
