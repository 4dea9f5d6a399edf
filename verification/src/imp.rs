//! The Imp object (OpenRTB 2.5, section 3.2.4).

use vstd::prelude::*;
use serde_json::{Number, Value};
use crate::audio::{Audio, AudioView};
use crate::banner::{Banner, BannerView};
use crate::codec::{
    Codec, amount, current_option, defaulted, get, get_amount, get_option, get_or, lemma_amount,
    lemma_defaulted, lemma_lookup_with, lemma_lookup_with_some, lemma_lookup_with_unless,
    lemma_optional, lemma_optional_valid, lemma_required, model_of_option, optional,
    plain_amount, put, put_amount, put_some, put_unless, required, text_is, valid_option, with,
    with_amount, with_some, with_unless, written, written_unless,
};
use crate::error::{Error, ErrorView};
use crate::json::{Json, Members, Num, lemma_insert_fresh, lemma_lookup_empty, lookup};
use crate::metric::{Metric, MetricView};
use crate::native::{Native, NativeView};
use crate::pmp::{Pmp, PmpView};
use crate::value::{number_zero, value_from_map};
use crate::video::{Video, VideoView};

verus! {

/// Imp (OpenRTB 2.5, section 3.2.4).
///
/// This object describes an ad placement or impression being auctioned. A single bid request
/// can include multiple Imp objects, a use case for which might be an exchange that supports
/// selling all ad positions on a given page. Each Imp object has a required ID so that bids can
/// reference them individually.
///
/// The presence of Banner (Section 3.2.6), Video (Section 3.2.7), and/or Native (Section 3.2.9)
/// objects subordinate to the Imp object indicates the type of impression being offered. The
/// publisher can choose one such type which is the typical case or mix them at their
/// discretion. However, any given bid for the impression must conform to one of the offered
/// types.
#[derive(Clone, Debug, PartialEq)]
pub struct Imp {
    /// A unique identifier for this impression within the context of the bid request
    /// (typically, starts with 1 and increments. Required.
    pub id: String,
    /// An array of Metric object (Section 3.2.5).
    pub metric: Option<Vec<Metric>>,
    /// A Banner object (Section 3.2.6); required if this impression is offered as a banner ad
    /// opportunity.
    pub banner: Option<Banner>,
    /// A Video object (Section 3.2.7); required if this impression is offered as a video ad
    /// opportunity.
    pub video: Option<Video>,
    /// An Audio object (Section 3.2.8); required if this impression is offered as an audio ad
    /// opportunity.
    pub audio: Option<Audio>,
    /// A Native object (Section 3.2.9); required if this impression is offered as a native ad
    /// opportunity.
    pub native: Option<Native>,
    /// A Pmp object (Section 3.2.11) containing any private marketplace deals in effect for
    /// this impression.
    pub pmp: Option<Pmp>,
    /// Name of ad mediation partner, SDK technology, or player responsible for rendering ad
    /// (typically video or mobile). Used by some ad servers to customize ad code by partner.
    /// Recommended for video and/or apps.
    pub displaymanager: Option<String>,
    /// Version of ad mediation partner, SDK technology, or player responsible for rendering ad
    /// (typically video or mobile). Used by some ad servers to customize ad code by partner.
    /// Recommended for video and/or apps.
    pub displaymanagerver: Option<String>,
    /// 1 = the ad is interstitial or full screen, 0 = not interstitial. Left out of the
    /// document when it has its default, 0.
    pub instl: bool,
    /// Identifier for specific ad placement or ad tag that was used to initiate the auction.
    /// This can be useful for debugging of any issues, or for optimization by the buyer.
    pub tagid: Option<String>,
    /// Minimum bid for this impression expressed in CPM. Left out of the document when it has
    /// its default, 0.
    pub bidfloor: Number,
    /// Currency specified using ISO-4217 alpha codes. This may be different from bid currency
    /// returned by bidder if this is allowed by the exchange. Left out of the document when it
    /// has its default, "USD".
    pub bidfloorcur: String,
    /// Indicates the type of browser opened upon clicking the creative in an app, where 0 =
    /// embedded, 1 = native. Note that the Safari View Controller in iOS 9.x devices is
    /// considered a native browser for purposes of this attribute.
    pub clickbrowser: Option<bool>,
    /// Flag to indicate if the impression requires secure HTTPS URL creative assets and markup,
    /// where 0 = non-secure, 1 = secure. If omitted, the secure state is unknown, but
    /// non-secure HTTP support can be assumed.
    pub secure: Option<bool>,
    /// Array of exchange-specific names of supported iframe busters.
    pub iframebuster: Option<Vec<String>>,
    /// Advisory as to the number of seconds that may elapse between the auction and the actual
    /// impression.
    pub exp: Option<i32>,
    /// Placeholder for exchange-specific extensions to OpenRTB.
    pub ext: Option<serde_json::Map<String, Value>>,
}

/// The model of a [`Imp`]: the same fields, as plain values.
pub struct ImpView {
    pub id: Seq<char>,
    pub metric: Option<Seq<MetricView>>,
    pub banner: Option<BannerView>,
    pub video: Option<VideoView>,
    pub audio: Option<AudioView>,
    pub native: Option<NativeView>,
    pub pmp: Option<PmpView>,
    pub displaymanager: Option<Seq<char>>,
    pub displaymanagerver: Option<Seq<char>>,
    pub instl: bool,
    pub tagid: Option<Seq<char>>,
    pub bidfloor: Num,
    pub bidfloorcur: Seq<char>,
    pub clickbrowser: Option<bool>,
    pub secure: Option<bool>,
    pub iframebuster: Option<Seq<Seq<char>>>,
    pub exp: Option<i32>,
    pub ext: Option<Members>,
}

impl ImpView {
    /// The value that [`Imp::default`] stands for.
    pub open spec fn default() -> ImpView {
        ImpView {
            id: Seq::<char>::empty(),
            metric: None,
            banner: None,
            video: None,
            audio: None,
            native: None,
            pmp: None,
            displaymanager: None,
            displaymanagerver: None,
            instl: false,
            tagid: None,
            bidfloor: Num::Real(0),
            bidfloorcur: "USD"@,
            clickbrowser: None,
            secure: None,
            iframebuster: None,
            exp: None,
            ext: None,
        }
    }

    /// Whether encoding this value and decoding it again yields it: each part of it is
    /// valid.
    pub open spec fn valid(self) -> bool {
        &&& valid_option::<Vec<Metric>>(self.metric)
        &&& valid_option::<Banner>(self.banner)
        &&& valid_option::<Video>(self.video)
        &&& valid_option::<Audio>(self.audio)
        &&& valid_option::<Native>(self.native)
        &&& valid_option::<Pmp>(self.pmp)
        &&& plain_amount(self.bidfloor)
    }

    /// Whether no deprecated field is set in this value, at any depth.
    pub open spec fn current(self) -> bool {
        &&& current_option::<Vec<Metric>>(self.metric)
        &&& current_option::<Banner>(self.banner)
        &&& current_option::<Video>(self.video)
        &&& current_option::<Audio>(self.audio)
        &&& current_option::<Native>(self.native)
        &&& current_option::<Pmp>(self.pmp)
    }

    /// The members that this value is encoded to, in order.
    pub open spec fn members(self) -> Members {
        let m = Seq::<(Seq<char>, Json)>::empty();
        let m = with::<String>(m, "id"@, self.id);
        let m = with_some::<Vec<Metric>>(m, "metric"@, self.metric);
        let m = with_some::<Banner>(m, "banner"@, self.banner);
        let m = with_some::<Video>(m, "video"@, self.video);
        let m = with_some::<Audio>(m, "audio"@, self.audio);
        let m = with_some::<Native>(m, "native"@, self.native);
        let m = with_some::<Pmp>(m, "pmp"@, self.pmp);
        let m = with_some::<String>(m, "displaymanager"@, self.displaymanager);
        let m = with_some::<String>(m, "displaymanagerver"@, self.displaymanagerver);
        let m = with_unless::<bool>(m, "instl"@, self.instl, !self.instl);
        let m = with_some::<String>(m, "tagid"@, self.tagid);
        let m = with_amount(m, "bidfloor"@, self.bidfloor);
        let m = with_unless::<String>(
            m,
            "bidfloorcur"@,
            self.bidfloorcur,
            self.bidfloorcur == "USD"@,
        );
        let m = with_some::<bool>(m, "clickbrowser"@, self.clickbrowser);
        let m = with_some::<bool>(m, "secure"@, self.secure);
        let m = with_some::<Vec<String>>(m, "iframebuster"@, self.iframebuster);
        let m = with_some::<i32>(m, "exp"@, self.exp);
        let m = with_some::<serde_json::Map<String, Value>>(m, "ext"@, self.ext);
        m
    }

    /// What decoding an object of these members yields: the value, or the error of the
    /// first field, in the order of the fields, whose member is not accepted.
    pub open spec fn of_members(members: Members) -> Result<ImpView, ErrorView> {
        let id = required::<String>(members, "id"@);
        let metric = optional::<Vec<Metric>>(members, "metric"@);
        let banner = optional::<Banner>(members, "banner"@);
        let video = optional::<Video>(members, "video"@);
        let audio = optional::<Audio>(members, "audio"@);
        let native = optional::<Native>(members, "native"@);
        let pmp = optional::<Pmp>(members, "pmp"@);
        let displaymanager = optional::<String>(members, "displaymanager"@);
        let displaymanagerver = optional::<String>(members, "displaymanagerver"@);
        let instl = defaulted::<bool>(members, "instl"@, false);
        let tagid = optional::<String>(members, "tagid"@);
        let bidfloor = amount(members, "bidfloor"@);
        let bidfloorcur = defaulted::<String>(members, "bidfloorcur"@, "USD"@);
        let clickbrowser = optional::<bool>(members, "clickbrowser"@);
        let secure = optional::<bool>(members, "secure"@);
        let iframebuster = optional::<Vec<String>>(members, "iframebuster"@);
        let exp = optional::<i32>(members, "exp"@);
        let ext = optional::<serde_json::Map<String, Value>>(members, "ext"@);
        if id is Err {
            Err(id->Err_0)
        } else if metric is Err {
            Err(metric->Err_0)
        } else if banner is Err {
            Err(banner->Err_0)
        } else if video is Err {
            Err(video->Err_0)
        } else if audio is Err {
            Err(audio->Err_0)
        } else if native is Err {
            Err(native->Err_0)
        } else if pmp is Err {
            Err(pmp->Err_0)
        } else if displaymanager is Err {
            Err(displaymanager->Err_0)
        } else if displaymanagerver is Err {
            Err(displaymanagerver->Err_0)
        } else if instl is Err {
            Err(instl->Err_0)
        } else if tagid is Err {
            Err(tagid->Err_0)
        } else if bidfloor is Err {
            Err(bidfloor->Err_0)
        } else if bidfloorcur is Err {
            Err(bidfloorcur->Err_0)
        } else if clickbrowser is Err {
            Err(clickbrowser->Err_0)
        } else if secure is Err {
            Err(secure->Err_0)
        } else if iframebuster is Err {
            Err(iframebuster->Err_0)
        } else if exp is Err {
            Err(exp->Err_0)
        } else if ext is Err {
            Err(ext->Err_0)
        } else {
            Ok(ImpView {
                id: id->Ok_0,
                metric: metric->Ok_0,
                banner: banner->Ok_0,
                video: video->Ok_0,
                audio: audio->Ok_0,
                native: native->Ok_0,
                pmp: pmp->Ok_0,
                displaymanager: displaymanager->Ok_0,
                displaymanagerver: displaymanagerver->Ok_0,
                instl: instl->Ok_0,
                tagid: tagid->Ok_0,
                bidfloor: bidfloor->Ok_0,
                bidfloorcur: bidfloorcur->Ok_0,
                clickbrowser: clickbrowser->Ok_0,
                secure: secure->Ok_0,
                iframebuster: iframebuster->Ok_0,
                exp: exp->Ok_0,
                ext: ext->Ok_0,
            })
        }
    }
}

impl Default for Imp {
    /// The value whose optional fields are absent and whose other fields have their
    /// defaults.
    fn default() -> (r: Imp)
        ensures
            r.model() == ImpView::default(),
    {
        Imp {
            id: String::new(),
            metric: None,
            banner: None,
            video: None,
            audio: None,
            native: None,
            pmp: None,
            displaymanager: None,
            displaymanagerver: None,
            instl: false,
            tagid: None,
            bidfloor: number_zero(),
            bidfloorcur: "USD".to_owned(),
            clickbrowser: None,
            secure: None,
            iframebuster: None,
            exp: None,
            ext: None,
        }
    }
}

/// The lengths of the keys, and the letters that tell keys of one length apart: no two
/// keys are the same.
proof fn lemma_keys()
    ensures
        "id"@.len() == 2,
        "metric"@.len() == 6 && "metric"@[0] == 'm',
        "banner"@.len() == 6 && "banner"@[0] == 'b',
        "video"@.len() == 5 && "video"@[0] == 'v',
        "audio"@.len() == 5 && "audio"@[0] == 'a',
        "native"@.len() == 6 && "native"@[0] == 'n',
        "pmp"@.len() == 3 && "pmp"@[0] == 'p' && "pmp"@[2] == 'p',
        "displaymanager"@.len() == 14,
        "displaymanagerver"@.len() == 17,
        "instl"@.len() == 5 && "instl"@[0] == 'i',
        "tagid"@.len() == 5 && "tagid"@[0] == 't',
        "bidfloor"@.len() == 8,
        "bidfloorcur"@.len() == 11,
        "clickbrowser"@.len() == 12 && "clickbrowser"@[0] == 'c',
        "secure"@.len() == 6 && "secure"@[0] == 's',
        "iframebuster"@.len() == 12 && "iframebuster"@[0] == 'i',
        "exp"@.len() == 3 && "exp"@[0] == 'e' && "exp"@[2] == 'p',
        "ext"@.len() == 3 && "ext"@[0] == 'e' && "ext"@[2] == 't',
{
    reveal_strlit("id");
    reveal_strlit("metric");
    reveal_strlit("banner");
    reveal_strlit("video");
    reveal_strlit("audio");
    reveal_strlit("native");
    reveal_strlit("pmp");
    reveal_strlit("displaymanager");
    reveal_strlit("displaymanagerver");
    reveal_strlit("instl");
    reveal_strlit("tagid");
    reveal_strlit("bidfloor");
    reveal_strlit("bidfloorcur");
    reveal_strlit("clickbrowser");
    reveal_strlit("secure");
    reveal_strlit("iframebuster");
    reveal_strlit("exp");
    reveal_strlit("ext");
}

/// What is found under each key among the members that a value is encoded to.
proof fn lemma_members(m: ImpView)
    ensures
        lookup(m.members(), "id"@) == Some(<String as Codec>::encoded(m.id)),
        lookup(m.members(), "metric"@) == written::<Vec<Metric>>(m.metric),
        lookup(m.members(), "banner"@) == written::<Banner>(m.banner),
        lookup(m.members(), "video"@) == written::<Video>(m.video),
        lookup(m.members(), "audio"@) == written::<Audio>(m.audio),
        lookup(m.members(), "native"@) == written::<Native>(m.native),
        lookup(m.members(), "pmp"@) == written::<Pmp>(m.pmp),
        lookup(m.members(), "displaymanager"@) == written::<String>(m.displaymanager),
        lookup(m.members(), "displaymanagerver"@) == written::<String>(m.displaymanagerver),
        lookup(m.members(), "instl"@) == written_unless::<bool>(m.instl, !m.instl),
        lookup(m.members(), "tagid"@) == written::<String>(m.tagid),
        lookup(m.members(), "bidfloor"@) == written_unless::<Number>(
            m.bidfloor,
            m.bidfloor.is_zero(),
        ),
        lookup(m.members(), "bidfloorcur"@) == written_unless::<String>(
            m.bidfloorcur,
            m.bidfloorcur == "USD"@,
        ),
        lookup(m.members(), "clickbrowser"@) == written::<bool>(m.clickbrowser),
        lookup(m.members(), "secure"@) == written::<bool>(m.secure),
        lookup(m.members(), "iframebuster"@) == written::<Vec<String>>(m.iframebuster),
        lookup(m.members(), "exp"@) == written::<i32>(m.exp),
        lookup(m.members(), "ext"@) == written::<serde_json::Map<String, Value>>(m.ext),
{
    broadcast use {lemma_lookup_with, lemma_lookup_with_some, lemma_lookup_with_unless};
    lemma_keys();
    assert forall|key: Seq<char>| lookup(Seq::empty(), key) is None by {
        lemma_lookup_empty(key);
    }
}

impl Codec for Imp {
    type Model = ImpView;

    open spec fn model(&self) -> ImpView {
        ImpView {
            id: self.id.model(),
            metric: model_of_option::<Vec<Metric>>(self.metric),
            banner: model_of_option::<Banner>(self.banner),
            video: model_of_option::<Video>(self.video),
            audio: model_of_option::<Audio>(self.audio),
            native: model_of_option::<Native>(self.native),
            pmp: model_of_option::<Pmp>(self.pmp),
            displaymanager: model_of_option::<String>(self.displaymanager),
            displaymanagerver: model_of_option::<String>(self.displaymanagerver),
            instl: self.instl.model(),
            tagid: model_of_option::<String>(self.tagid),
            bidfloor: self.bidfloor.model(),
            bidfloorcur: self.bidfloorcur.model(),
            clickbrowser: model_of_option::<bool>(self.clickbrowser),
            secure: model_of_option::<bool>(self.secure),
            iframebuster: model_of_option::<Vec<String>>(self.iframebuster),
            exp: model_of_option::<i32>(self.exp),
            ext: model_of_option::<serde_json::Map<String, Value>>(self.ext),
        }
    }

    open spec fn valid(m: ImpView) -> bool {
        m.valid()
    }

    open spec fn current(m: ImpView) -> bool {
        m.current()
    }

    open spec fn encoded(m: ImpView) -> Json {
        Json::Object(m.members())
    }

    open spec fn decoded(json: Json) -> Result<ImpView, ErrorView> {
        match json {
            Json::Object(members) => ImpView::of_members(members),
            _ => Err(ErrorView::shape(json, "an object"@)),
        }
    }

    fn to_value(&self) -> (value: Value) {
        let mut map = serde_json::Map::new();
        put::<String>(&mut map, "id", &self.id);
        put_some::<Vec<Metric>>(&mut map, "metric", &self.metric);
        put_some::<Banner>(&mut map, "banner", &self.banner);
        put_some::<Video>(&mut map, "video", &self.video);
        put_some::<Audio>(&mut map, "audio", &self.audio);
        put_some::<Native>(&mut map, "native", &self.native);
        put_some::<Pmp>(&mut map, "pmp", &self.pmp);
        put_some::<String>(&mut map, "displaymanager", &self.displaymanager);
        put_some::<String>(&mut map, "displaymanagerver", &self.displaymanagerver);
        put_unless::<bool>(&mut map, "instl", &self.instl, !self.instl);
        put_some::<String>(&mut map, "tagid", &self.tagid);
        put_amount(&mut map, "bidfloor", &self.bidfloor);
        put_unless::<String>(
            &mut map,
            "bidfloorcur",
            &self.bidfloorcur,
            text_is(&self.bidfloorcur, "USD"),
        );
        put_some::<bool>(&mut map, "clickbrowser", &self.clickbrowser);
        put_some::<bool>(&mut map, "secure", &self.secure);
        put_some::<Vec<String>>(&mut map, "iframebuster", &self.iframebuster);
        put_some::<i32>(&mut map, "exp", &self.exp);
        put_some::<serde_json::Map<String, Value>>(&mut map, "ext", &self.ext);
        value_from_map(map)
    }

    fn from_value(value: &Value) -> (r: Result<Imp, Error>) {
        match value.as_object() {
            None => Err(Error::shape(value, "an object")),
            Some(map) => {
                let id = get::<String>(map, "id")?;
                let metric = get_option::<Vec<Metric>>(map, "metric")?;
                let banner = get_option::<Banner>(map, "banner")?;
                let video = get_option::<Video>(map, "video")?;
                let audio = get_option::<Audio>(map, "audio")?;
                let native = get_option::<Native>(map, "native")?;
                let pmp = get_option::<Pmp>(map, "pmp")?;
                let displaymanager = get_option::<String>(map, "displaymanager")?;
                let displaymanagerver = get_option::<String>(map, "displaymanagerver")?;
                let instl = get_or::<bool>(map, "instl", false)?;
                let tagid = get_option::<String>(map, "tagid")?;
                let bidfloor = get_amount(map, "bidfloor")?;
                let bidfloorcur = get_or::<String>(map, "bidfloorcur", "USD".to_owned())?;
                let clickbrowser = get_option::<bool>(map, "clickbrowser")?;
                let secure = get_option::<bool>(map, "secure")?;
                let iframebuster = get_option::<Vec<String>>(map, "iframebuster")?;
                let exp = get_option::<i32>(map, "exp")?;
                let ext = get_option::<serde_json::Map<String, Value>>(map, "ext")?;
                Ok(Imp {
                    id, metric, banner, video, audio, native, pmp, displaymanager,
                    displaymanagerver, instl, tagid, bidfloor, bidfloorcur, clickbrowser, secure,
                    iframebuster, exp, ext,
                })
            },
        }
    }

    proof fn round_trip(m: ImpView) {
        lemma_members(m);
        let members = m.members();
        lemma_required::<String>(members, "id"@, m.id);
        lemma_optional::<Vec<Metric>>(members, "metric"@, m.metric);
        lemma_optional::<Banner>(members, "banner"@, m.banner);
        lemma_optional::<Video>(members, "video"@, m.video);
        lemma_optional::<Audio>(members, "audio"@, m.audio);
        lemma_optional::<Native>(members, "native"@, m.native);
        lemma_optional::<Pmp>(members, "pmp"@, m.pmp);
        lemma_optional::<String>(members, "displaymanager"@, m.displaymanager);
        lemma_optional::<String>(members, "displaymanagerver"@, m.displaymanagerver);
        lemma_defaulted::<bool>(members, "instl"@, m.instl, false);
        lemma_optional::<String>(members, "tagid"@, m.tagid);
        lemma_amount(members, "bidfloor"@, m.bidfloor);
        lemma_defaulted::<String>(members, "bidfloorcur"@, m.bidfloorcur, "USD"@);
        lemma_optional::<bool>(members, "clickbrowser"@, m.clickbrowser);
        lemma_optional::<bool>(members, "secure"@, m.secure);
        lemma_optional::<Vec<String>>(members, "iframebuster"@, m.iframebuster);
        lemma_optional::<i32>(members, "exp"@, m.exp);
        lemma_optional::<serde_json::Map<String, Value>>(members, "ext"@, m.ext);
    }

    proof fn decoded_valid(json: Json) {
        if let Json::Object(members) = json {
            lemma_optional_valid::<Vec<Metric>>(members, "metric"@);
            lemma_optional_valid::<Banner>(members, "banner"@);
            lemma_optional_valid::<Video>(members, "video"@);
            lemma_optional_valid::<Audio>(members, "audio"@);
            lemma_optional_valid::<Native>(members, "native"@);
            lemma_optional_valid::<Pmp>(members, "pmp"@);
        }
    }
}

/// A default value is encoded to the least document: its required members, and no other.
pub proof fn default_is_minimal()
    ensures
        Imp::encoded(ImpView::default()) == Json::Object(
            seq![
                ("id"@, Json::Text(Seq::empty())),
            ],
        ),
{
    reveal(with);
    reveal(with_some);
    reveal(with_unless);
    let d = ImpView::default();
    let m = Seq::<(Seq<char>, Json)>::empty();
    lemma_insert_fresh(m, "id"@, <String as Codec>::encoded(d.id));
    let m = m.push(("id"@, <String as Codec>::encoded(d.id)));
    assert(d.members() == m);
    assert(m =~= seq![
        ("id"@, Json::Text(Seq::empty())),
    ]);
}

} // verus!
