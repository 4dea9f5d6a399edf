//! The BidRequest object (OpenRTB 2.5, section 3.2.1).

use vstd::prelude::*;
use serde_json::Value;
use crate::app::App;
use crate::auction_type::AuctionType;
use crate::codec::{
    Codec, current_option, defaulted, encoded_items, get, get_option, get_or, lemma_defaulted,
    lemma_defaulted_valid, lemma_lookup_with, lemma_lookup_with_some, lemma_lookup_with_unless,
    lemma_optional, lemma_optional_valid, lemma_required, lemma_required_valid, model_of_option,
    optional, put, put_some, put_unless, required, valid_option, with, with_some, with_unless,
    written, written_unless,
};
use crate::content_category::ContentCategory;
use crate::device::{Device, DeviceView};
use crate::distribution_channel::{DistributionChannel, DistributionChannelView, view_of_option};
use crate::error::{Error, ErrorView};
use crate::imp::{Imp, ImpView};
use crate::json::{Json, Members, lemma_insert_fresh, lemma_lookup_empty, lookup};
use crate::regs::{Regs, RegsView};
use crate::site::Site;
use crate::source::{Source, SourceView};
use crate::user::{User, UserView};
use crate::value::value_from_map;

verus! {

/// BidRequest (OpenRTB 2.5, section 3.2.1).
///
/// The top-level bid request object contains a globally unique bid request or auction ID. This
/// id attribute is required as is at least one impression object (Section 3.2.4). Other
/// attributes in this top-level object establish rules and restrictions that apply to all
/// impressions being offered.
///
/// There are also several subordinate objects that provide detailed data to potential buyers.
/// Among these are the Site and App objects, which describe the type of published media in
/// which the impression(s) appear. These objects are highly recommended, but only one applies
/// to a given bid request depending on whether the media is browser-based web content or a
/// non-browser application, respectively.
#[derive(Clone, Debug, PartialEq)]
pub struct BidRequest {
    /// Unique ID of the bid request, provided by the exchange. Required.
    pub id: String,
    /// Array of Imp objects (Section 3.2.4) representing the impressions offered. At least 1
    /// Imp object is required. Required.
    pub imp: Vec<Imp>,
    /// The site or the app in which the impressions are shown, under the key `site` or `app`.
    pub channel: Option<DistributionChannel>,
    /// Details via a Device object (Section 3.2.18) about the user's device to which the
    /// impression will be delivered.
    pub device: Option<Device>,
    /// Details via a User object (Section 3.2.20) about the human user of the device; the
    /// advertising audience.
    pub user: Option<User>,
    /// Indicator of test mode in which auctions are not billable, where 0 = live mode, 1 = test
    /// mode. Left out of the document when it has its default, 0.
    pub test: bool,
    /// Auction type, where 1 = First Price, 2 = Second Price Plus. Exchange-specific auction
    /// types can be defined using values greater than 500. Left out of the document when it has
    /// its default, 2.
    pub at: AuctionType,
    /// Maximum time in milliseconds the exchange allows for bids to be received including
    /// Internet latency to avoid timeout. This value supersedes any a priori guidance from the
    /// exchange.
    pub tmax: Option<i32>,
    /// White list of buyer seats (e.g., advertisers, agencies) allowed to bid on this
    /// impression. IDs of seats and knowledge of the buyer's customers to which they refer must
    /// be coordinated between bidders and the exchange a priori. At most, only one of wseat and
    /// bseat should be used in the same request. Omission of both implies no seat restrictions.
    pub wseat: Option<Vec<String>>,
    /// Block list of buyer seats (e.g., advertisers, agencies) restricted from bidding on this
    /// impression. IDs of seats and knowledge of the buyer's customers to which they refer must
    /// be coordinated between bidders and the exchange a priori. At most, only one of wseat and
    /// bseat should be used in the same request. Omission of both implies no seat restrictions.
    pub bseat: Option<Vec<String>>,
    /// Flag to indicate if Exchange can verify that the impressions offered represent all of
    /// the impressions available in context (e.g., all on the web page, all video spots such as
    /// pre/mid/post roll) to support road-blocking. 0 = no or unknown, 1 = yes, the impressions
    /// offered represent all that are available. Left out of the document when it has its
    /// default, 0.
    pub allimps: bool,
    /// Array of allowed currencies for bids on this bid request using ISO-4217 alpha codes.
    /// Recommended only if the exchange accepts multiple currencies.
    pub cur: Option<Vec<String>>,
    /// White list of languages for creatives using ISO-639-1-alpha-2. Omission implies no
    /// specific restrictions, but buyers would be advised to consider language attribute in the
    /// Device and/or Content objects if available.
    pub wlang: Option<Vec<String>>,
    /// Blocked advertiser categories using the IAB content categories. Refer to List 5.1.
    pub bcat: Option<Vec<ContentCategory>>,
    /// Block list of advertisers by their domains (e.g., "ford.com").
    pub badv: Option<Vec<String>>,
    /// Block list of applications by their platform-specific exchange- independent application
    /// identifiers. On Android, these should be bundle or package names (e.g., com.foo.mygame).
    /// On iOS, these are numeric IDs.
    pub bapp: Option<Vec<String>>,
    /// A Sorce object (Section 3.2.2) that provides data about the inventory source and which
    /// entity makes the final decision.
    pub source: Option<Source>,
    /// A Regs object (Section 3.2.3) that specifies any industry, legal, or governmental
    /// regulations in force for this request.
    pub regs: Option<Regs>,
    /// Placeholder for exchange-specific extensions to OpenRTB.
    pub ext: Option<serde_json::Map<String, Value>>,
}

/// The model of a [`BidRequest`]: the same fields, as plain values.
pub struct BidRequestView {
    pub id: Seq<char>,
    pub imp: Seq<ImpView>,
    pub channel: Option<DistributionChannelView>,
    pub device: Option<DeviceView>,
    pub user: Option<UserView>,
    pub test: bool,
    pub at: AuctionType,
    pub tmax: Option<i32>,
    pub wseat: Option<Seq<Seq<char>>>,
    pub bseat: Option<Seq<Seq<char>>>,
    pub allimps: bool,
    pub cur: Option<Seq<Seq<char>>>,
    pub wlang: Option<Seq<Seq<char>>>,
    pub bcat: Option<Seq<ContentCategory>>,
    pub badv: Option<Seq<Seq<char>>>,
    pub bapp: Option<Seq<Seq<char>>>,
    pub source: Option<SourceView>,
    pub regs: Option<RegsView>,
    pub ext: Option<Members>,
}

impl BidRequestView {
    /// The value that [`BidRequest::default`] stands for.
    pub open spec fn default() -> BidRequestView {
        BidRequestView {
            id: Seq::<char>::empty(),
            imp: Seq::<ImpView>::empty(),
            channel: None,
            device: None,
            user: None,
            test: false,
            at: AuctionType::SecondPricePlus,
            tmax: None,
            wseat: None,
            bseat: None,
            allimps: false,
            cur: None,
            wlang: None,
            bcat: None,
            badv: None,
            bapp: None,
            source: None,
            regs: None,
            ext: None,
        }
    }

    /// Whether encoding this value and decoding it again yields it: each part of it is
    /// valid.
    pub open spec fn valid(self) -> bool {
        &&& <Vec<Imp> as Codec>::valid(self.imp)
        &&& (self.channel matches Some(c) ==> c.valid())
        &&& valid_option::<Device>(self.device)
        &&& valid_option::<User>(self.user)
        &&& <AuctionType as Codec>::valid(self.at)
        &&& valid_option::<Source>(self.source)
        &&& valid_option::<Regs>(self.regs)
    }

    /// Whether no deprecated field is set in this value, at any depth.
    pub open spec fn current(self) -> bool {
        &&& <Vec<Imp> as Codec>::current(self.imp)
        &&& (self.channel matches Some(c) ==> c.current())
        &&& current_option::<Device>(self.device)
        &&& current_option::<User>(self.user)
        &&& current_option::<Source>(self.source)
        &&& current_option::<Regs>(self.regs)
    }

    /// The members that this value is encoded to, in order.
    pub open spec fn members(self) -> Members {
        let m = Seq::<(Seq<char>, Json)>::empty();
        let m = with::<String>(m, "id"@, self.id);
        let m = with::<Vec<Imp>>(m, "imp"@, self.imp);
        let m = DistributionChannelView::with_channel(m, self.channel);
        let m = with_some::<Device>(m, "device"@, self.device);
        let m = with_some::<User>(m, "user"@, self.user);
        let m = with_unless::<bool>(m, "test"@, self.test, !self.test);
        let m = with_unless::<AuctionType>(
            m,
            "at"@,
            self.at,
            self.at == AuctionType::SecondPricePlus,
        );
        let m = with_some::<i32>(m, "tmax"@, self.tmax);
        let m = with_some::<Vec<String>>(m, "wseat"@, self.wseat);
        let m = with_some::<Vec<String>>(m, "bseat"@, self.bseat);
        let m = with_unless::<bool>(m, "allimps"@, self.allimps, !self.allimps);
        let m = with_some::<Vec<String>>(m, "cur"@, self.cur);
        let m = with_some::<Vec<String>>(m, "wlang"@, self.wlang);
        let m = with_some::<Vec<ContentCategory>>(m, "bcat"@, self.bcat);
        let m = with_some::<Vec<String>>(m, "badv"@, self.badv);
        let m = with_some::<Vec<String>>(m, "bapp"@, self.bapp);
        let m = with_some::<Source>(m, "source"@, self.source);
        let m = with_some::<Regs>(m, "regs"@, self.regs);
        let m = with_some::<serde_json::Map<String, Value>>(m, "ext"@, self.ext);
        m
    }

    /// What decoding an object of these members yields: the value, or the error of the
    /// first field, in the order of the fields, whose member is not accepted.
    pub open spec fn of_members(members: Members) -> Result<BidRequestView, ErrorView> {
        let id = required::<String>(members, "id"@);
        let imp = required::<Vec<Imp>>(members, "imp"@);
        let channel = DistributionChannelView::among(members);
        let device = optional::<Device>(members, "device"@);
        let user = optional::<User>(members, "user"@);
        let test = defaulted::<bool>(members, "test"@, false);
        let at = defaulted::<AuctionType>(members, "at"@, AuctionType::SecondPricePlus);
        let tmax = optional::<i32>(members, "tmax"@);
        let wseat = optional::<Vec<String>>(members, "wseat"@);
        let bseat = optional::<Vec<String>>(members, "bseat"@);
        let allimps = defaulted::<bool>(members, "allimps"@, false);
        let cur = optional::<Vec<String>>(members, "cur"@);
        let wlang = optional::<Vec<String>>(members, "wlang"@);
        let bcat = optional::<Vec<ContentCategory>>(members, "bcat"@);
        let badv = optional::<Vec<String>>(members, "badv"@);
        let bapp = optional::<Vec<String>>(members, "bapp"@);
        let source = optional::<Source>(members, "source"@);
        let regs = optional::<Regs>(members, "regs"@);
        let ext = optional::<serde_json::Map<String, Value>>(members, "ext"@);
        if id is Err {
            Err(id->Err_0)
        } else if imp is Err {
            Err(imp->Err_0)
        } else if channel is Err {
            Err(channel->Err_0)
        } else if device is Err {
            Err(device->Err_0)
        } else if user is Err {
            Err(user->Err_0)
        } else if test is Err {
            Err(test->Err_0)
        } else if at is Err {
            Err(at->Err_0)
        } else if tmax is Err {
            Err(tmax->Err_0)
        } else if wseat is Err {
            Err(wseat->Err_0)
        } else if bseat is Err {
            Err(bseat->Err_0)
        } else if allimps is Err {
            Err(allimps->Err_0)
        } else if cur is Err {
            Err(cur->Err_0)
        } else if wlang is Err {
            Err(wlang->Err_0)
        } else if bcat is Err {
            Err(bcat->Err_0)
        } else if badv is Err {
            Err(badv->Err_0)
        } else if bapp is Err {
            Err(bapp->Err_0)
        } else if source is Err {
            Err(source->Err_0)
        } else if regs is Err {
            Err(regs->Err_0)
        } else if ext is Err {
            Err(ext->Err_0)
        } else {
            Ok(BidRequestView {
                id: id->Ok_0,
                imp: imp->Ok_0,
                channel: channel->Ok_0,
                device: device->Ok_0,
                user: user->Ok_0,
                test: test->Ok_0,
                at: at->Ok_0,
                tmax: tmax->Ok_0,
                wseat: wseat->Ok_0,
                bseat: bseat->Ok_0,
                allimps: allimps->Ok_0,
                cur: cur->Ok_0,
                wlang: wlang->Ok_0,
                bcat: bcat->Ok_0,
                badv: badv->Ok_0,
                bapp: bapp->Ok_0,
                source: source->Ok_0,
                regs: regs->Ok_0,
                ext: ext->Ok_0,
            })
        }
    }
}

impl Default for BidRequest {
    /// The value whose optional fields are absent and whose other fields have their
    /// defaults.
    fn default() -> (r: BidRequest)
        ensures
            r.model() == BidRequestView::default(),
    {
        let r = BidRequest {
            id: String::new(),
            imp: Vec::new(),
            channel: None,
            device: None,
            user: None,
            test: false,
            at: AuctionType::SecondPricePlus,
            tmax: None,
            wseat: None,
            bseat: None,
            allimps: false,
            cur: None,
            wlang: None,
            bcat: None,
            badv: None,
            bapp: None,
            source: None,
            regs: None,
            ext: None,
        };
        assert(r.imp.model() =~= Seq::empty());
        r
    }
}

/// The lengths of the keys, and the letters that tell keys of one length apart: no two
/// keys are the same.
proof fn lemma_keys()
    ensures
        "id"@.len() == 2 && "id"@[0] == 'i',
        "imp"@.len() == 3 && "imp"@[0] == 'i',
        "site"@.len() == 4 && "site"@[0] == 's' && "site"@[2] == 't',
        "app"@.len() == 3 && "app"@[0] == 'a',
        "device"@.len() == 6 && "device"@[0] == 'd',
        "user"@.len() == 4 && "user"@[0] == 'u' && "user"@[2] == 'e',
        "test"@.len() == 4 && "test"@[0] == 't' && "test"@[2] == 's',
        "at"@.len() == 2 && "at"@[0] == 'a',
        "tmax"@.len() == 4 && "tmax"@[0] == 't' && "tmax"@[2] == 'a',
        "wseat"@.len() == 5 && "wseat"@[0] == 'w' && "wseat"@[1] == 's',
        "bseat"@.len() == 5 && "bseat"@[0] == 'b' && "bseat"@[1] == 's',
        "allimps"@.len() == 7,
        "cur"@.len() == 3 && "cur"@[0] == 'c',
        "wlang"@.len() == 5 && "wlang"@[0] == 'w' && "wlang"@[1] == 'l',
        "bcat"@.len() == 4 && "bcat"@[0] == 'b' && "bcat"@[2] == 'a',
        "badv"@.len() == 4 && "badv"@[0] == 'b' && "badv"@[2] == 'd',
        "bapp"@.len() == 4 && "bapp"@[0] == 'b' && "bapp"@[2] == 'p',
        "source"@.len() == 6 && "source"@[0] == 's',
        "regs"@.len() == 4 && "regs"@[0] == 'r' && "regs"@[2] == 'g',
        "ext"@.len() == 3 && "ext"@[0] == 'e',
{
    reveal_strlit("id");
    reveal_strlit("imp");
    reveal_strlit("site");
    reveal_strlit("app");
    reveal_strlit("device");
    reveal_strlit("user");
    reveal_strlit("test");
    reveal_strlit("at");
    reveal_strlit("tmax");
    reveal_strlit("wseat");
    reveal_strlit("bseat");
    reveal_strlit("allimps");
    reveal_strlit("cur");
    reveal_strlit("wlang");
    reveal_strlit("bcat");
    reveal_strlit("badv");
    reveal_strlit("bapp");
    reveal_strlit("source");
    reveal_strlit("regs");
    reveal_strlit("ext");
}

/// What is found under each key among the members that a value is encoded to.
proof fn lemma_members(m: BidRequestView)
    ensures
        lookup(m.members(), "id"@) == Some(<String as Codec>::encoded(m.id)),
        lookup(m.members(), "imp"@) == Some(<Vec<Imp> as Codec>::encoded(m.imp)),
        lookup(m.members(), "site"@) == written::<Site>(
            DistributionChannelView::site_of(m.channel),
        ),
        lookup(m.members(), "app"@) == written::<App>(DistributionChannelView::app_of(m.channel)),
        lookup(m.members(), "device"@) == written::<Device>(m.device),
        lookup(m.members(), "user"@) == written::<User>(m.user),
        lookup(m.members(), "test"@) == written_unless::<bool>(m.test, !m.test),
        lookup(m.members(), "at"@) == written_unless::<AuctionType>(
            m.at,
            m.at == AuctionType::SecondPricePlus,
        ),
        lookup(m.members(), "tmax"@) == written::<i32>(m.tmax),
        lookup(m.members(), "wseat"@) == written::<Vec<String>>(m.wseat),
        lookup(m.members(), "bseat"@) == written::<Vec<String>>(m.bseat),
        lookup(m.members(), "allimps"@) == written_unless::<bool>(m.allimps, !m.allimps),
        lookup(m.members(), "cur"@) == written::<Vec<String>>(m.cur),
        lookup(m.members(), "wlang"@) == written::<Vec<String>>(m.wlang),
        lookup(m.members(), "bcat"@) == written::<Vec<ContentCategory>>(m.bcat),
        lookup(m.members(), "badv"@) == written::<Vec<String>>(m.badv),
        lookup(m.members(), "bapp"@) == written::<Vec<String>>(m.bapp),
        lookup(m.members(), "source"@) == written::<Source>(m.source),
        lookup(m.members(), "regs"@) == written::<Regs>(m.regs),
        lookup(m.members(), "ext"@) == written::<serde_json::Map<String, Value>>(m.ext),
{
    broadcast use {lemma_lookup_with, lemma_lookup_with_some, lemma_lookup_with_unless};
    lemma_keys();
    assert forall|key: Seq<char>| lookup(Seq::empty(), key) is None by {
        lemma_lookup_empty(key);
    }
}

impl Codec for BidRequest {
    type Model = BidRequestView;

    open spec fn model(&self) -> BidRequestView {
        BidRequestView {
            id: self.id.model(),
            imp: self.imp.model(),
            channel: view_of_option(self.channel),
            device: model_of_option::<Device>(self.device),
            user: model_of_option::<User>(self.user),
            test: self.test.model(),
            at: self.at.model(),
            tmax: model_of_option::<i32>(self.tmax),
            wseat: model_of_option::<Vec<String>>(self.wseat),
            bseat: model_of_option::<Vec<String>>(self.bseat),
            allimps: self.allimps.model(),
            cur: model_of_option::<Vec<String>>(self.cur),
            wlang: model_of_option::<Vec<String>>(self.wlang),
            bcat: model_of_option::<Vec<ContentCategory>>(self.bcat),
            badv: model_of_option::<Vec<String>>(self.badv),
            bapp: model_of_option::<Vec<String>>(self.bapp),
            source: model_of_option::<Source>(self.source),
            regs: model_of_option::<Regs>(self.regs),
            ext: model_of_option::<serde_json::Map<String, Value>>(self.ext),
        }
    }

    open spec fn valid(m: BidRequestView) -> bool {
        m.valid()
    }

    open spec fn current(m: BidRequestView) -> bool {
        m.current()
    }

    open spec fn encoded(m: BidRequestView) -> Json {
        Json::Object(m.members())
    }

    open spec fn decoded(json: Json) -> Result<BidRequestView, ErrorView> {
        match json {
            Json::Object(members) => BidRequestView::of_members(members),
            _ => Err(ErrorView::shape(json, "an object"@)),
        }
    }

    fn to_value(&self) -> (value: Value) {
        let mut map = serde_json::Map::new();
        put::<String>(&mut map, "id", &self.id);
        put::<Vec<Imp>>(&mut map, "imp", &self.imp);
        DistributionChannel::put_channel(&mut map, &self.channel);
        put_some::<Device>(&mut map, "device", &self.device);
        put_some::<User>(&mut map, "user", &self.user);
        put_unless::<bool>(&mut map, "test", &self.test, !self.test);
        put_unless::<AuctionType>(&mut map, "at", &self.at, self.at.is_default());
        put_some::<i32>(&mut map, "tmax", &self.tmax);
        put_some::<Vec<String>>(&mut map, "wseat", &self.wseat);
        put_some::<Vec<String>>(&mut map, "bseat", &self.bseat);
        put_unless::<bool>(&mut map, "allimps", &self.allimps, !self.allimps);
        put_some::<Vec<String>>(&mut map, "cur", &self.cur);
        put_some::<Vec<String>>(&mut map, "wlang", &self.wlang);
        put_some::<Vec<ContentCategory>>(&mut map, "bcat", &self.bcat);
        put_some::<Vec<String>>(&mut map, "badv", &self.badv);
        put_some::<Vec<String>>(&mut map, "bapp", &self.bapp);
        put_some::<Source>(&mut map, "source", &self.source);
        put_some::<Regs>(&mut map, "regs", &self.regs);
        put_some::<serde_json::Map<String, Value>>(&mut map, "ext", &self.ext);
        value_from_map(map)
    }

    fn from_value(value: &Value) -> (r: Result<BidRequest, Error>) {
        match value.as_object() {
            None => Err(Error::shape(value, "an object")),
            Some(map) => {
                let id = get::<String>(map, "id")?;
                let imp = get::<Vec<Imp>>(map, "imp")?;
                let channel = DistributionChannel::get_channel(map)?;
                let device = get_option::<Device>(map, "device")?;
                let user = get_option::<User>(map, "user")?;
                let test = get_or::<bool>(map, "test", false)?;
                let at = get_or::<AuctionType>(map, "at", AuctionType::SecondPricePlus)?;
                let tmax = get_option::<i32>(map, "tmax")?;
                let wseat = get_option::<Vec<String>>(map, "wseat")?;
                let bseat = get_option::<Vec<String>>(map, "bseat")?;
                let allimps = get_or::<bool>(map, "allimps", false)?;
                let cur = get_option::<Vec<String>>(map, "cur")?;
                let wlang = get_option::<Vec<String>>(map, "wlang")?;
                let bcat = get_option::<Vec<ContentCategory>>(map, "bcat")?;
                let badv = get_option::<Vec<String>>(map, "badv")?;
                let bapp = get_option::<Vec<String>>(map, "bapp")?;
                let source = get_option::<Source>(map, "source")?;
                let regs = get_option::<Regs>(map, "regs")?;
                let ext = get_option::<serde_json::Map<String, Value>>(map, "ext")?;
                Ok(BidRequest {
                    id, imp, channel, device, user, test, at, tmax, wseat, bseat, allimps, cur,
                    wlang, bcat, badv, bapp, source, regs, ext,
                })
            },
        }
    }

    proof fn round_trip(m: BidRequestView) {
        lemma_members(m);
        let members = m.members();
        lemma_required::<String>(members, "id"@, m.id);
        lemma_required::<Vec<Imp>>(members, "imp"@, m.imp);
        DistributionChannelView::lemma_among(members, m.channel);
        lemma_optional::<Device>(members, "device"@, m.device);
        lemma_optional::<User>(members, "user"@, m.user);
        lemma_defaulted::<bool>(members, "test"@, m.test, false);
        lemma_defaulted::<AuctionType>(members, "at"@, m.at, AuctionType::SecondPricePlus);
        lemma_optional::<i32>(members, "tmax"@, m.tmax);
        lemma_optional::<Vec<String>>(members, "wseat"@, m.wseat);
        lemma_optional::<Vec<String>>(members, "bseat"@, m.bseat);
        lemma_defaulted::<bool>(members, "allimps"@, m.allimps, false);
        lemma_optional::<Vec<String>>(members, "cur"@, m.cur);
        lemma_optional::<Vec<String>>(members, "wlang"@, m.wlang);
        lemma_optional::<Vec<ContentCategory>>(members, "bcat"@, m.bcat);
        lemma_optional::<Vec<String>>(members, "badv"@, m.badv);
        lemma_optional::<Vec<String>>(members, "bapp"@, m.bapp);
        lemma_optional::<Source>(members, "source"@, m.source);
        lemma_optional::<Regs>(members, "regs"@, m.regs);
        lemma_optional::<serde_json::Map<String, Value>>(members, "ext"@, m.ext);
    }

    proof fn decoded_valid(json: Json) {
        if let Json::Object(members) = json {
            lemma_required_valid::<Vec<Imp>>(members, "imp"@);
            DistributionChannelView::lemma_among_valid(members);
            lemma_optional_valid::<Device>(members, "device"@);
            lemma_optional_valid::<User>(members, "user"@);
            lemma_defaulted_valid::<AuctionType>(members, "at"@, AuctionType::SecondPricePlus);
            lemma_optional_valid::<Source>(members, "source"@);
            lemma_optional_valid::<Regs>(members, "regs"@);
        }
    }
}

/// A default value is encoded to the least document: its required members, and no other.
pub proof fn default_is_minimal()
    ensures
        BidRequest::encoded(BidRequestView::default()) == Json::Object(
            seq![
                ("id"@, Json::Text(Seq::empty())),
                ("imp"@, Json::Array(Seq::empty())),
            ],
        ),
{
    reveal(with);
    reveal(with_some);
    reveal(with_unless);
    lemma_keys();
    let d = BidRequestView::default();
    let m = Seq::<(Seq<char>, Json)>::empty();
    lemma_insert_fresh(m, "id"@, <String as Codec>::encoded(d.id));
    let m = m.push(("id"@, <String as Codec>::encoded(d.id)));
    assert(encoded_items::<Imp>(d.imp) =~= Seq::empty());
    lemma_insert_fresh(m, "imp"@, <Vec<Imp> as Codec>::encoded(d.imp));
    let m = m.push(("imp"@, <Vec<Imp> as Codec>::encoded(d.imp)));
    assert(d.members() == m);
    assert(m =~= seq![
        ("id"@, Json::Text(Seq::empty())),
        ("imp"@, Json::Array(Seq::empty())),
    ]);
}

/// A bid request whose document holds both a site and an app is not accepted.
pub proof fn both_channels_refused(members: Members)
    requires
        lookup(members, "site"@) is Some,
        lookup(members, "app"@) is Some,
    ensures
        BidRequest::decoded(Json::Object(members)) is Err,
{
}

} // verus!
