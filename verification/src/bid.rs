//! The Bid object (OpenRTB 2.5, section 4.2.3).

use vstd::prelude::*;
use serde_json::{Number, Value};
use crate::api_framework::ApiFramework;
use crate::codec::{
    Codec, get, get_option, lemma_lookup_with, lemma_lookup_with_some, lemma_lookup_with_unless,
    lemma_optional, lemma_required, model_of_option, optional, put, put_some, required, with,
    with_some, written,
};
use crate::content_category::ContentCategory;
use crate::creative_attribute::CreativeAttribute;
use crate::error::{Error, ErrorView};
use crate::iqg_media_rating::IqgMediaRating;
use crate::json::{Json, Members, Num, lemma_insert_fresh, lemma_lookup_empty, lookup};
use crate::protocol::Protocol;
use crate::value::{number_zero, value_from_map};

verus! {

/// Bid (OpenRTB 2.5, section 4.2.3).
///
/// A SeatBid object contains one or more Bid objects, each of which relates to a specific
/// impression in the bid request via the impid attribute and constitutes an offer to buy that
/// impression for a given price.
#[derive(Clone, Debug, PartialEq)]
pub struct Bid {
    /// Bidder generated bid ID to assist with logging/tracking. Required.
    pub id: String,
    /// ID of the Imp object in the related bid request. Required.
    pub impid: String,
    /// Bid price expressed as CPM although the actual transaction is for a unit impression
    /// only. Note that while the type indicates float, integer math is highly recommended when
    /// handling currencies (e.g., BigDecimal in Java). Required.
    pub price: Number,
    /// Win notice URL called by the exchange if the bid wins (not necessarily indicative of a
    /// delivered, viewed, or billable ad); optional means of serving ad markup. Substitution
    /// macros (Section 4.4) may be included in both the URL and optionally returned markup.
    pub nurl: Option<String>,
    /// Billing notice URL called by the exchange when a winning bid becomes billable based on
    /// exchange-specific business policy (e.g., typically delivered, viewed, etc.).
    /// Substitution macros (Section 4.4) may be included.
    pub burl: Option<String>,
    /// Loss notice URL called by the exchange when a bid is known to have been lost.
    /// Substitution macros (Section 4.4) may be included. Exchange-specific policy may preclude
    /// support for loss notices or the disclosure of winning clearing prices resulting in
    /// ${AUCTION_PRICE} macros being removed (i.e., replaced with a zero-length string).
    pub lurl: Option<String>,
    /// Optional means of conveying ad markup in case the bid wins; supersedes the win notice if
    /// markup is included in both. Substitution macros (Section 4.4) may be included.
    pub adm: Option<String>,
    /// ID of a preloaded ad to be served if the bid wins.
    pub adid: Option<String>,
    /// Advertiser domain for block list checking (e.g., "ford.com"). This can be an array of
    /// for the case of rotating creatives. Exchanges can mandate that only one domain is
    /// allowed.
    pub adomain: Option<Vec<String>>,
    /// A platform-specific application identifier intended to be unique to the app and
    /// independent of the exchange. On Android, this should be a bundle or package name (e.g.,
    /// com.foo.mygame). On iOS, it is a numeric ID.
    pub bundle: Option<String>,
    /// URL without cache-busting to an image that is representative of the content of the
    /// campaign for ad quality/safety checking.
    pub iurl: Option<String>,
    /// Campaign ID to assist with ad quality checking; the collection of creatives for which
    /// iurl should be representative.
    pub cid: Option<String>,
    /// Creative ID to assist with ad quality checking.
    pub crid: Option<String>,
    /// Tactic ID to enable buyers to label bids for reporting to the exchange the tactic
    /// through which their bid was submitted. The specific usage and meaning of the tactic ID
    /// should be communicated between buyer and exchanges a priori.
    pub tactic: Option<String>,
    /// IAB content categories of the creative. Refer to List 5.1.
    pub cat: Option<Vec<ContentCategory>>,
    /// Set of attributes describing the creative. Refer to List 5.3.
    pub attr: Option<Vec<CreativeAttribute>>,
    /// API required by the markup if applicable. Refer to List 5.6.
    pub api: Option<ApiFramework>,
    /// Video response protocol of the markup if applicable. Refer to List 5.8.
    pub protocol: Option<Protocol>,
    /// Creative media rating per IQG guidelines. Refer to List 5.19.
    pub qagmediarating: Option<IqgMediaRating>,
    /// Language of the creative using ISO-639-1-alpha-2. The non- standard code "xx" may also
    /// be used if the creative has no linguistic content (e.g., a banner with just a company
    /// logo).
    pub language: Option<String>,
    /// Reference to the deal.id from the bid request if this bid pertains to a private
    /// marketplace direct deal.
    pub dealid: Option<String>,
    /// Width of the creative in device independent pixels (DIPS).
    pub w: Option<i32>,
    /// Height of the creative in device independent pixels (DIPS).
    pub h: Option<i32>,
    /// Relative width of the creative when expressing size as a ratio. Required for Flex Ads.
    pub wratio: Option<i32>,
    /// Relative height of the creative when expressing size as a ratio. Required for Flex Ads.
    pub hratio: Option<i32>,
    /// Advisory as to the number of seconds the bidder is willing to wait between the auction
    /// and the actual impression.
    pub exp: Option<i32>,
    /// Placeholder for bidder-specific extensions to OpenRTB.
    pub ext: Option<serde_json::Map<String, Value>>,
}

/// The model of a [`Bid`]: the same fields, as plain values.
pub struct BidView {
    pub id: Seq<char>,
    pub impid: Seq<char>,
    pub price: Num,
    pub nurl: Option<Seq<char>>,
    pub burl: Option<Seq<char>>,
    pub lurl: Option<Seq<char>>,
    pub adm: Option<Seq<char>>,
    pub adid: Option<Seq<char>>,
    pub adomain: Option<Seq<Seq<char>>>,
    pub bundle: Option<Seq<char>>,
    pub iurl: Option<Seq<char>>,
    pub cid: Option<Seq<char>>,
    pub crid: Option<Seq<char>>,
    pub tactic: Option<Seq<char>>,
    pub cat: Option<Seq<ContentCategory>>,
    pub attr: Option<Seq<CreativeAttribute>>,
    pub api: Option<ApiFramework>,
    pub protocol: Option<Protocol>,
    pub qagmediarating: Option<IqgMediaRating>,
    pub language: Option<Seq<char>>,
    pub dealid: Option<Seq<char>>,
    pub w: Option<i32>,
    pub h: Option<i32>,
    pub wratio: Option<i32>,
    pub hratio: Option<i32>,
    pub exp: Option<i32>,
    pub ext: Option<Members>,
}

impl BidView {
    /// The value that [`Bid::default`] stands for.
    pub open spec fn default() -> BidView {
        BidView {
            id: Seq::<char>::empty(),
            impid: Seq::<char>::empty(),
            price: Num::Real(0),
            nurl: None,
            burl: None,
            lurl: None,
            adm: None,
            adid: None,
            adomain: None,
            bundle: None,
            iurl: None,
            cid: None,
            crid: None,
            tactic: None,
            cat: None,
            attr: None,
            api: None,
            protocol: None,
            qagmediarating: None,
            language: None,
            dealid: None,
            w: None,
            h: None,
            wratio: None,
            hratio: None,
            exp: None,
            ext: None,
        }
    }

    /// Whether encoding this value and decoding it again yields it: each part of it is
    /// valid.
    pub open spec fn valid(self) -> bool {
        true
    }

    /// Whether no deprecated field is set in this value, at any depth.
    pub open spec fn current(self) -> bool {
        true
    }

    /// The members that this value is encoded to, in order.
    pub open spec fn members(self) -> Members {
        let m = Seq::<(Seq<char>, Json)>::empty();
        let m = with::<String>(m, "id"@, self.id);
        let m = with::<String>(m, "impid"@, self.impid);
        let m = with::<Number>(m, "price"@, self.price);
        let m = with_some::<String>(m, "nurl"@, self.nurl);
        let m = with_some::<String>(m, "burl"@, self.burl);
        let m = with_some::<String>(m, "lurl"@, self.lurl);
        let m = with_some::<String>(m, "adm"@, self.adm);
        let m = with_some::<String>(m, "adid"@, self.adid);
        let m = with_some::<Vec<String>>(m, "adomain"@, self.adomain);
        let m = with_some::<String>(m, "bundle"@, self.bundle);
        let m = with_some::<String>(m, "iurl"@, self.iurl);
        let m = with_some::<String>(m, "cid"@, self.cid);
        let m = with_some::<String>(m, "crid"@, self.crid);
        let m = with_some::<String>(m, "tactic"@, self.tactic);
        let m = with_some::<Vec<ContentCategory>>(m, "cat"@, self.cat);
        let m = with_some::<Vec<CreativeAttribute>>(m, "attr"@, self.attr);
        let m = with_some::<ApiFramework>(m, "api"@, self.api);
        let m = with_some::<Protocol>(m, "protocol"@, self.protocol);
        let m = with_some::<IqgMediaRating>(m, "qagmediarating"@, self.qagmediarating);
        let m = with_some::<String>(m, "language"@, self.language);
        let m = with_some::<String>(m, "dealid"@, self.dealid);
        let m = with_some::<i32>(m, "w"@, self.w);
        let m = with_some::<i32>(m, "h"@, self.h);
        let m = with_some::<i32>(m, "wratio"@, self.wratio);
        let m = with_some::<i32>(m, "hratio"@, self.hratio);
        let m = with_some::<i32>(m, "exp"@, self.exp);
        let m = with_some::<serde_json::Map<String, Value>>(m, "ext"@, self.ext);
        m
    }

    /// What decoding an object of these members yields: the value, or the error of the
    /// first field, in the order of the fields, whose member is not accepted.
    pub open spec fn of_members(members: Members) -> Result<BidView, ErrorView> {
        let id = required::<String>(members, "id"@);
        let impid = required::<String>(members, "impid"@);
        let price = required::<Number>(members, "price"@);
        let nurl = optional::<String>(members, "nurl"@);
        let burl = optional::<String>(members, "burl"@);
        let lurl = optional::<String>(members, "lurl"@);
        let adm = optional::<String>(members, "adm"@);
        let adid = optional::<String>(members, "adid"@);
        let adomain = optional::<Vec<String>>(members, "adomain"@);
        let bundle = optional::<String>(members, "bundle"@);
        let iurl = optional::<String>(members, "iurl"@);
        let cid = optional::<String>(members, "cid"@);
        let crid = optional::<String>(members, "crid"@);
        let tactic = optional::<String>(members, "tactic"@);
        let cat = optional::<Vec<ContentCategory>>(members, "cat"@);
        let attr = optional::<Vec<CreativeAttribute>>(members, "attr"@);
        let api = optional::<ApiFramework>(members, "api"@);
        let protocol = optional::<Protocol>(members, "protocol"@);
        let qagmediarating = optional::<IqgMediaRating>(members, "qagmediarating"@);
        let language = optional::<String>(members, "language"@);
        let dealid = optional::<String>(members, "dealid"@);
        let w = optional::<i32>(members, "w"@);
        let h = optional::<i32>(members, "h"@);
        let wratio = optional::<i32>(members, "wratio"@);
        let hratio = optional::<i32>(members, "hratio"@);
        let exp = optional::<i32>(members, "exp"@);
        let ext = optional::<serde_json::Map<String, Value>>(members, "ext"@);
        if id is Err {
            Err(id->Err_0)
        } else if impid is Err {
            Err(impid->Err_0)
        } else if price is Err {
            Err(price->Err_0)
        } else if nurl is Err {
            Err(nurl->Err_0)
        } else if burl is Err {
            Err(burl->Err_0)
        } else if lurl is Err {
            Err(lurl->Err_0)
        } else if adm is Err {
            Err(adm->Err_0)
        } else if adid is Err {
            Err(adid->Err_0)
        } else if adomain is Err {
            Err(adomain->Err_0)
        } else if bundle is Err {
            Err(bundle->Err_0)
        } else if iurl is Err {
            Err(iurl->Err_0)
        } else if cid is Err {
            Err(cid->Err_0)
        } else if crid is Err {
            Err(crid->Err_0)
        } else if tactic is Err {
            Err(tactic->Err_0)
        } else if cat is Err {
            Err(cat->Err_0)
        } else if attr is Err {
            Err(attr->Err_0)
        } else if api is Err {
            Err(api->Err_0)
        } else if protocol is Err {
            Err(protocol->Err_0)
        } else if qagmediarating is Err {
            Err(qagmediarating->Err_0)
        } else if language is Err {
            Err(language->Err_0)
        } else if dealid is Err {
            Err(dealid->Err_0)
        } else if w is Err {
            Err(w->Err_0)
        } else if h is Err {
            Err(h->Err_0)
        } else if wratio is Err {
            Err(wratio->Err_0)
        } else if hratio is Err {
            Err(hratio->Err_0)
        } else if exp is Err {
            Err(exp->Err_0)
        } else if ext is Err {
            Err(ext->Err_0)
        } else {
            Ok(BidView {
                id: id->Ok_0,
                impid: impid->Ok_0,
                price: price->Ok_0,
                nurl: nurl->Ok_0,
                burl: burl->Ok_0,
                lurl: lurl->Ok_0,
                adm: adm->Ok_0,
                adid: adid->Ok_0,
                adomain: adomain->Ok_0,
                bundle: bundle->Ok_0,
                iurl: iurl->Ok_0,
                cid: cid->Ok_0,
                crid: crid->Ok_0,
                tactic: tactic->Ok_0,
                cat: cat->Ok_0,
                attr: attr->Ok_0,
                api: api->Ok_0,
                protocol: protocol->Ok_0,
                qagmediarating: qagmediarating->Ok_0,
                language: language->Ok_0,
                dealid: dealid->Ok_0,
                w: w->Ok_0,
                h: h->Ok_0,
                wratio: wratio->Ok_0,
                hratio: hratio->Ok_0,
                exp: exp->Ok_0,
                ext: ext->Ok_0,
            })
        }
    }
}

impl Default for Bid {
    /// The value whose optional fields are absent and whose other fields have their
    /// defaults.
    fn default() -> (r: Bid)
        ensures
            r.model() == BidView::default(),
    {
        Bid {
            id: String::new(),
            impid: String::new(),
            price: number_zero(),
            nurl: None,
            burl: None,
            lurl: None,
            adm: None,
            adid: None,
            adomain: None,
            bundle: None,
            iurl: None,
            cid: None,
            crid: None,
            tactic: None,
            cat: None,
            attr: None,
            api: None,
            protocol: None,
            qagmediarating: None,
            language: None,
            dealid: None,
            w: None,
            h: None,
            wratio: None,
            hratio: None,
            exp: None,
            ext: None,
        }
    }
}

/// The lengths of the keys, and the letters that tell keys of one length apart: no two
/// keys are the same.
proof fn lemma_keys()
    ensures
        "id"@.len() == 2,
        "impid"@.len() == 5 && "impid"@[0] == 'i',
        "price"@.len() == 5 && "price"@[0] == 'p',
        "nurl"@.len() == 4 && "nurl"@[0] == 'n' && "nurl"@[1] == 'u',
        "burl"@.len() == 4 && "burl"@[0] == 'b' && "burl"@[1] == 'u',
        "lurl"@.len() == 4 && "lurl"@[0] == 'l' && "lurl"@[1] == 'u',
        "adm"@.len() == 3 && "adm"@[0] == 'a' && "adm"@[2] == 'm',
        "adid"@.len() == 4 && "adid"@[0] == 'a' && "adid"@[1] == 'd',
        "adomain"@.len() == 7,
        "bundle"@.len() == 6 && "bundle"@[0] == 'b',
        "iurl"@.len() == 4 && "iurl"@[0] == 'i' && "iurl"@[1] == 'u',
        "cid"@.len() == 3 && "cid"@[0] == 'c' && "cid"@[2] == 'd',
        "crid"@.len() == 4 && "crid"@[0] == 'c' && "crid"@[1] == 'r',
        "tactic"@.len() == 6 && "tactic"@[0] == 't',
        "cat"@.len() == 3 && "cat"@[0] == 'c' && "cat"@[2] == 't',
        "attr"@.len() == 4 && "attr"@[0] == 'a' && "attr"@[1] == 't',
        "api"@.len() == 3 && "api"@[0] == 'a' && "api"@[2] == 'i',
        "protocol"@.len() == 8 && "protocol"@[0] == 'p',
        "qagmediarating"@.len() == 14,
        "language"@.len() == 8 && "language"@[0] == 'l',
        "dealid"@.len() == 6 && "dealid"@[0] == 'd',
        "w"@.len() == 1 && "w"@[0] == 'w',
        "h"@.len() == 1 && "h"@[0] == 'h',
        "wratio"@.len() == 6 && "wratio"@[0] == 'w',
        "hratio"@.len() == 6 && "hratio"@[0] == 'h',
        "exp"@.len() == 3 && "exp"@[0] == 'e' && "exp"@[2] == 'p',
        "ext"@.len() == 3 && "ext"@[0] == 'e' && "ext"@[2] == 't',
{
    reveal_strlit("id");
    reveal_strlit("impid");
    reveal_strlit("price");
    reveal_strlit("nurl");
    reveal_strlit("burl");
    reveal_strlit("lurl");
    reveal_strlit("adm");
    reveal_strlit("adid");
    reveal_strlit("adomain");
    reveal_strlit("bundle");
    reveal_strlit("iurl");
    reveal_strlit("cid");
    reveal_strlit("crid");
    reveal_strlit("tactic");
    reveal_strlit("cat");
    reveal_strlit("attr");
    reveal_strlit("api");
    reveal_strlit("protocol");
    reveal_strlit("qagmediarating");
    reveal_strlit("language");
    reveal_strlit("dealid");
    reveal_strlit("w");
    reveal_strlit("h");
    reveal_strlit("wratio");
    reveal_strlit("hratio");
    reveal_strlit("exp");
    reveal_strlit("ext");
}

/// What is found under each key among the members that a value is encoded to.
proof fn lemma_members(m: BidView)
    ensures
        lookup(m.members(), "id"@) == Some(<String as Codec>::encoded(m.id)),
        lookup(m.members(), "impid"@) == Some(<String as Codec>::encoded(m.impid)),
        lookup(m.members(), "price"@) == Some(<Number as Codec>::encoded(m.price)),
        lookup(m.members(), "nurl"@) == written::<String>(m.nurl),
        lookup(m.members(), "burl"@) == written::<String>(m.burl),
        lookup(m.members(), "lurl"@) == written::<String>(m.lurl),
        lookup(m.members(), "adm"@) == written::<String>(m.adm),
        lookup(m.members(), "adid"@) == written::<String>(m.adid),
        lookup(m.members(), "adomain"@) == written::<Vec<String>>(m.adomain),
        lookup(m.members(), "bundle"@) == written::<String>(m.bundle),
        lookup(m.members(), "iurl"@) == written::<String>(m.iurl),
        lookup(m.members(), "cid"@) == written::<String>(m.cid),
        lookup(m.members(), "crid"@) == written::<String>(m.crid),
        lookup(m.members(), "tactic"@) == written::<String>(m.tactic),
        lookup(m.members(), "cat"@) == written::<Vec<ContentCategory>>(m.cat),
        lookup(m.members(), "attr"@) == written::<Vec<CreativeAttribute>>(m.attr),
        lookup(m.members(), "api"@) == written::<ApiFramework>(m.api),
        lookup(m.members(), "protocol"@) == written::<Protocol>(m.protocol),
        lookup(m.members(), "qagmediarating"@) == written::<IqgMediaRating>(m.qagmediarating),
        lookup(m.members(), "language"@) == written::<String>(m.language),
        lookup(m.members(), "dealid"@) == written::<String>(m.dealid),
        lookup(m.members(), "w"@) == written::<i32>(m.w),
        lookup(m.members(), "h"@) == written::<i32>(m.h),
        lookup(m.members(), "wratio"@) == written::<i32>(m.wratio),
        lookup(m.members(), "hratio"@) == written::<i32>(m.hratio),
        lookup(m.members(), "exp"@) == written::<i32>(m.exp),
        lookup(m.members(), "ext"@) == written::<serde_json::Map<String, Value>>(m.ext),
{
    broadcast use {lemma_lookup_with, lemma_lookup_with_some, lemma_lookup_with_unless};
    lemma_keys();
    assert forall|key: Seq<char>| lookup(Seq::empty(), key) is None by {
        lemma_lookup_empty(key);
    }
}

impl Codec for Bid {
    type Model = BidView;

    open spec fn model(&self) -> BidView {
        BidView {
            id: self.id.model(),
            impid: self.impid.model(),
            price: self.price.model(),
            nurl: model_of_option::<String>(self.nurl),
            burl: model_of_option::<String>(self.burl),
            lurl: model_of_option::<String>(self.lurl),
            adm: model_of_option::<String>(self.adm),
            adid: model_of_option::<String>(self.adid),
            adomain: model_of_option::<Vec<String>>(self.adomain),
            bundle: model_of_option::<String>(self.bundle),
            iurl: model_of_option::<String>(self.iurl),
            cid: model_of_option::<String>(self.cid),
            crid: model_of_option::<String>(self.crid),
            tactic: model_of_option::<String>(self.tactic),
            cat: model_of_option::<Vec<ContentCategory>>(self.cat),
            attr: model_of_option::<Vec<CreativeAttribute>>(self.attr),
            api: model_of_option::<ApiFramework>(self.api),
            protocol: model_of_option::<Protocol>(self.protocol),
            qagmediarating: model_of_option::<IqgMediaRating>(self.qagmediarating),
            language: model_of_option::<String>(self.language),
            dealid: model_of_option::<String>(self.dealid),
            w: model_of_option::<i32>(self.w),
            h: model_of_option::<i32>(self.h),
            wratio: model_of_option::<i32>(self.wratio),
            hratio: model_of_option::<i32>(self.hratio),
            exp: model_of_option::<i32>(self.exp),
            ext: model_of_option::<serde_json::Map<String, Value>>(self.ext),
        }
    }

    open spec fn valid(m: BidView) -> bool {
        m.valid()
    }

    open spec fn current(m: BidView) -> bool {
        m.current()
    }

    open spec fn encoded(m: BidView) -> Json {
        Json::Object(m.members())
    }

    open spec fn decoded(json: Json) -> Result<BidView, ErrorView> {
        match json {
            Json::Object(members) => BidView::of_members(members),
            _ => Err(ErrorView::shape(json, "an object"@)),
        }
    }

    fn to_value(&self) -> (value: Value) {
        let mut map = serde_json::Map::new();
        put::<String>(&mut map, "id", &self.id);
        put::<String>(&mut map, "impid", &self.impid);
        put::<Number>(&mut map, "price", &self.price);
        put_some::<String>(&mut map, "nurl", &self.nurl);
        put_some::<String>(&mut map, "burl", &self.burl);
        put_some::<String>(&mut map, "lurl", &self.lurl);
        put_some::<String>(&mut map, "adm", &self.adm);
        put_some::<String>(&mut map, "adid", &self.adid);
        put_some::<Vec<String>>(&mut map, "adomain", &self.adomain);
        put_some::<String>(&mut map, "bundle", &self.bundle);
        put_some::<String>(&mut map, "iurl", &self.iurl);
        put_some::<String>(&mut map, "cid", &self.cid);
        put_some::<String>(&mut map, "crid", &self.crid);
        put_some::<String>(&mut map, "tactic", &self.tactic);
        put_some::<Vec<ContentCategory>>(&mut map, "cat", &self.cat);
        put_some::<Vec<CreativeAttribute>>(&mut map, "attr", &self.attr);
        put_some::<ApiFramework>(&mut map, "api", &self.api);
        put_some::<Protocol>(&mut map, "protocol", &self.protocol);
        put_some::<IqgMediaRating>(&mut map, "qagmediarating", &self.qagmediarating);
        put_some::<String>(&mut map, "language", &self.language);
        put_some::<String>(&mut map, "dealid", &self.dealid);
        put_some::<i32>(&mut map, "w", &self.w);
        put_some::<i32>(&mut map, "h", &self.h);
        put_some::<i32>(&mut map, "wratio", &self.wratio);
        put_some::<i32>(&mut map, "hratio", &self.hratio);
        put_some::<i32>(&mut map, "exp", &self.exp);
        put_some::<serde_json::Map<String, Value>>(&mut map, "ext", &self.ext);
        value_from_map(map)
    }

    fn from_value(value: &Value) -> (r: Result<Bid, Error>) {
        match value.as_object() {
            None => Err(Error::shape(value, "an object")),
            Some(map) => {
                let id = get::<String>(map, "id")?;
                let impid = get::<String>(map, "impid")?;
                let price = get::<Number>(map, "price")?;
                let nurl = get_option::<String>(map, "nurl")?;
                let burl = get_option::<String>(map, "burl")?;
                let lurl = get_option::<String>(map, "lurl")?;
                let adm = get_option::<String>(map, "adm")?;
                let adid = get_option::<String>(map, "adid")?;
                let adomain = get_option::<Vec<String>>(map, "adomain")?;
                let bundle = get_option::<String>(map, "bundle")?;
                let iurl = get_option::<String>(map, "iurl")?;
                let cid = get_option::<String>(map, "cid")?;
                let crid = get_option::<String>(map, "crid")?;
                let tactic = get_option::<String>(map, "tactic")?;
                let cat = get_option::<Vec<ContentCategory>>(map, "cat")?;
                let attr = get_option::<Vec<CreativeAttribute>>(map, "attr")?;
                let api = get_option::<ApiFramework>(map, "api")?;
                let protocol = get_option::<Protocol>(map, "protocol")?;
                let qagmediarating = get_option::<IqgMediaRating>(map, "qagmediarating")?;
                let language = get_option::<String>(map, "language")?;
                let dealid = get_option::<String>(map, "dealid")?;
                let w = get_option::<i32>(map, "w")?;
                let h = get_option::<i32>(map, "h")?;
                let wratio = get_option::<i32>(map, "wratio")?;
                let hratio = get_option::<i32>(map, "hratio")?;
                let exp = get_option::<i32>(map, "exp")?;
                let ext = get_option::<serde_json::Map<String, Value>>(map, "ext")?;
                Ok(Bid {
                    id, impid, price, nurl, burl, lurl, adm, adid, adomain, bundle, iurl, cid, crid,
                    tactic, cat, attr, api, protocol, qagmediarating, language, dealid, w, h,
                    wratio, hratio, exp, ext,
                })
            },
        }
    }

    proof fn round_trip(m: BidView) {
        lemma_members(m);
        let members = m.members();
        lemma_required::<String>(members, "id"@, m.id);
        lemma_required::<String>(members, "impid"@, m.impid);
        lemma_required::<Number>(members, "price"@, m.price);
        lemma_optional::<String>(members, "nurl"@, m.nurl);
        lemma_optional::<String>(members, "burl"@, m.burl);
        lemma_optional::<String>(members, "lurl"@, m.lurl);
        lemma_optional::<String>(members, "adm"@, m.adm);
        lemma_optional::<String>(members, "adid"@, m.adid);
        lemma_optional::<Vec<String>>(members, "adomain"@, m.adomain);
        lemma_optional::<String>(members, "bundle"@, m.bundle);
        lemma_optional::<String>(members, "iurl"@, m.iurl);
        lemma_optional::<String>(members, "cid"@, m.cid);
        lemma_optional::<String>(members, "crid"@, m.crid);
        lemma_optional::<String>(members, "tactic"@, m.tactic);
        lemma_optional::<Vec<ContentCategory>>(members, "cat"@, m.cat);
        lemma_optional::<Vec<CreativeAttribute>>(members, "attr"@, m.attr);
        lemma_optional::<ApiFramework>(members, "api"@, m.api);
        lemma_optional::<Protocol>(members, "protocol"@, m.protocol);
        lemma_optional::<IqgMediaRating>(members, "qagmediarating"@, m.qagmediarating);
        lemma_optional::<String>(members, "language"@, m.language);
        lemma_optional::<String>(members, "dealid"@, m.dealid);
        lemma_optional::<i32>(members, "w"@, m.w);
        lemma_optional::<i32>(members, "h"@, m.h);
        lemma_optional::<i32>(members, "wratio"@, m.wratio);
        lemma_optional::<i32>(members, "hratio"@, m.hratio);
        lemma_optional::<i32>(members, "exp"@, m.exp);
        lemma_optional::<serde_json::Map<String, Value>>(members, "ext"@, m.ext);
    }

    proof fn decoded_valid(json: Json) {
        if let Json::Object(members) = json {
        }
    }
}

/// A default value is encoded to the least document: its required members, and no other.
pub proof fn default_is_minimal()
    ensures
        Bid::encoded(BidView::default()) == Json::Object(
            seq![
                ("id"@, Json::Text(Seq::empty())),
                ("impid"@, Json::Text(Seq::empty())),
                ("price"@, Json::Number(Num::Real(0))),
            ],
        ),
{
    reveal(with);
    reveal(with_some);
    lemma_keys();
    let d = BidView::default();
    let m = Seq::<(Seq<char>, Json)>::empty();
    lemma_insert_fresh(m, "id"@, <String as Codec>::encoded(d.id));
    let m = m.push(("id"@, <String as Codec>::encoded(d.id)));
    lemma_insert_fresh(m, "impid"@, <String as Codec>::encoded(d.impid));
    let m = m.push(("impid"@, <String as Codec>::encoded(d.impid)));
    lemma_insert_fresh(m, "price"@, <Number as Codec>::encoded(d.price));
    let m = m.push(("price"@, <Number as Codec>::encoded(d.price)));
    assert(d.members() == m);
    assert(m =~= seq![
        ("id"@, Json::Text(Seq::empty())),
        ("impid"@, Json::Text(Seq::empty())),
        ("price"@, Json::Number(Num::Real(0))),
    ]);
}

} // verus!
