//! The Banner object (OpenRTB 2.5, section 3.2.6).

use vstd::prelude::*;
use serde_json::Value;
use crate::ad_position::AdPosition;
use crate::api_framework::ApiFramework;
use crate::banner_ad_type::BannerAdType;
use crate::codec::{
    Codec, current_option, get_option, lemma_lookup_with, lemma_lookup_with_some,
    lemma_lookup_with_unless, lemma_optional, lemma_optional_valid, model_of_option, optional,
    put_some, valid_option, with_some, written,
};
use crate::creative_attribute::CreativeAttribute;
use crate::error::{Error, ErrorView};
use crate::expandable_direction::ExpandableDirection;
use crate::format::{Format, FormatView};
use crate::json::{Json, Members, lemma_lookup_empty, lookup};
use crate::value::value_from_map;

verus! {

/// Banner (OpenRTB 2.5, section 3.2.6).
///
/// This object represents the most general type of impression. Although the term "banner" may
/// have very specific meaning in other contexts, here it can be many things including a simple
/// static image, an expandable ad unit, or even in-banner video (refer to the Video object in
/// Section 3.2.7 for the more generalized and full featured video ad units).
///
/// The presence of a Banner as a subordinate of the Imp object indicates that this impression
/// is offered as a banner type impression. At the publisher's discretion, that same impression
/// may also be offered as video, audio, and/or native by also including as Imp subordinates
/// objects of those types. However, any given bid for the impression must conform to one of the
/// offered types.
#[derive(Clone, Debug, PartialEq)]
pub struct Banner {
    /// Array of format objects (Section 3.2.10) representing the banner sizes permitted. If
    /// none are specified, then use of the h and w attributes is highly recommended.
    pub format: Option<Vec<Format>>,
    /// Exact width in device independent pixels (DIPS); recommended if no format objects are
    /// specified.
    pub w: Option<i32>,
    /// Exact height in device independent pixels (DIPS); recommended if no format objects are
    /// specified.
    pub h: Option<i32>,
    /// Maximum width in device independent pixels (DIPS). Deprecated: read from a document,
    /// never written to one.
    pub wmax: Option<i32>,
    /// Maximum height in device independent pixels (DIPS). Deprecated: read from a document,
    /// never written to one.
    pub hmax: Option<i32>,
    /// Minimum width in device independent pixels (DIPS). Deprecated: read from a document,
    /// never written to one.
    pub wmin: Option<i32>,
    /// Minimum height in device independent pixels (DIPS). Deprecated: read from a document,
    /// never written to one.
    pub hmin: Option<i32>,
    /// Blocked banner ad types. Refer to List 5.2.
    pub btype: Option<Vec<BannerAdType>>,
    /// Blocked creative attributes. Refer to List 5.3.
    pub battr: Option<Vec<CreativeAttribute>>,
    /// Ad position on screen. Refer to List 5.4.
    pub pos: Option<AdPosition>,
    /// Content MIME types supported. Popular MIME types may include
    /// "application/x-shockwave-flash", "image/jpg", and "image/gif".
    pub mimes: Option<Vec<String>>,
    /// Indicates if the banner is in the top frame as opposed to an iframe, where 0 = no, 1 =
    /// yes.
    pub topframe: Option<bool>,
    /// Directions in which the banner may expand. Refer to List 5.5.
    pub expdir: Option<Vec<ExpandableDirection>>,
    /// List of supported API frameworks for this impression. Refer to List 5.6. If an API is
    /// not explicitly listed, it is assumed not to be supported.
    pub api: Option<Vec<ApiFramework>>,
    /// Unique identifier for this banner object. Recommended when Banner objects are used with
    /// a Video object (Section 3.2.7) to represent an array of companion ads. Values usually
    /// start at 1 and increase with each object; should be unique within an impression.
    pub id: Option<String>,
    /// Relevant only for Banner objects used with a Video object (Section 3.2.7) in an array of
    /// companion ads. Indicates the companion banner rendering mode relative to the associated
    /// video, where 0 = concurrent, 1 = end-card.
    pub vcm: Option<bool>,
    /// Placeholder for exchange-specific extensions to OpenRTB.
    pub ext: Option<serde_json::Map<String, Value>>,
}

/// The model of a [`Banner`]: the same fields, as plain values.
pub struct BannerView {
    pub format: Option<Seq<FormatView>>,
    pub w: Option<i32>,
    pub h: Option<i32>,
    pub wmax: Option<i32>,
    pub hmax: Option<i32>,
    pub wmin: Option<i32>,
    pub hmin: Option<i32>,
    pub btype: Option<Seq<BannerAdType>>,
    pub battr: Option<Seq<CreativeAttribute>>,
    pub pos: Option<AdPosition>,
    pub mimes: Option<Seq<Seq<char>>>,
    pub topframe: Option<bool>,
    pub expdir: Option<Seq<ExpandableDirection>>,
    pub api: Option<Seq<ApiFramework>>,
    pub id: Option<Seq<char>>,
    pub vcm: Option<bool>,
    pub ext: Option<Members>,
}

impl BannerView {
    /// The value that [`Banner::default`] stands for.
    pub open spec fn default() -> BannerView {
        BannerView {
            format: None,
            w: None,
            h: None,
            wmax: None,
            hmax: None,
            wmin: None,
            hmin: None,
            btype: None,
            battr: None,
            pos: None,
            mimes: None,
            topframe: None,
            expdir: None,
            api: None,
            id: None,
            vcm: None,
            ext: None,
        }
    }

    /// Whether encoding this value and decoding it again yields it: each part of it is
    /// valid, and no deprecated field is set.
    pub open spec fn valid(self) -> bool {
        &&& valid_option::<Vec<Format>>(self.format)
        &&& self.wmax is None
        &&& self.hmax is None
        &&& self.wmin is None
        &&& self.hmin is None
    }

    /// Whether no deprecated field is set in this value, at any depth.
    pub open spec fn current(self) -> bool {
        &&& current_option::<Vec<Format>>(self.format)
        &&& self.wmax is None
        &&& self.hmax is None
        &&& self.wmin is None
        &&& self.hmin is None
    }

    /// The members that this value is encoded to, in order.
    pub open spec fn members(self) -> Members {
        let m = Seq::<(Seq<char>, Json)>::empty();
        let m = with_some::<Vec<Format>>(m, "format"@, self.format);
        let m = with_some::<i32>(m, "w"@, self.w);
        let m = with_some::<i32>(m, "h"@, self.h);
        let m = with_some::<Vec<BannerAdType>>(m, "btype"@, self.btype);
        let m = with_some::<Vec<CreativeAttribute>>(m, "battr"@, self.battr);
        let m = with_some::<AdPosition>(m, "pos"@, self.pos);
        let m = with_some::<Vec<String>>(m, "mimes"@, self.mimes);
        let m = with_some::<bool>(m, "topframe"@, self.topframe);
        let m = with_some::<Vec<ExpandableDirection>>(m, "expdir"@, self.expdir);
        let m = with_some::<Vec<ApiFramework>>(m, "api"@, self.api);
        let m = with_some::<String>(m, "id"@, self.id);
        let m = with_some::<bool>(m, "vcm"@, self.vcm);
        let m = with_some::<serde_json::Map<String, Value>>(m, "ext"@, self.ext);
        m
    }

    /// What decoding an object of these members yields: the value, or the error of the
    /// first field, in the order of the fields, whose member is not accepted.
    pub open spec fn of_members(members: Members) -> Result<BannerView, ErrorView> {
        let format = optional::<Vec<Format>>(members, "format"@);
        let w = optional::<i32>(members, "w"@);
        let h = optional::<i32>(members, "h"@);
        let wmax = optional::<i32>(members, "wmax"@);
        let hmax = optional::<i32>(members, "hmax"@);
        let wmin = optional::<i32>(members, "wmin"@);
        let hmin = optional::<i32>(members, "hmin"@);
        let btype = optional::<Vec<BannerAdType>>(members, "btype"@);
        let battr = optional::<Vec<CreativeAttribute>>(members, "battr"@);
        let pos = optional::<AdPosition>(members, "pos"@);
        let mimes = optional::<Vec<String>>(members, "mimes"@);
        let topframe = optional::<bool>(members, "topframe"@);
        let expdir = optional::<Vec<ExpandableDirection>>(members, "expdir"@);
        let api = optional::<Vec<ApiFramework>>(members, "api"@);
        let id = optional::<String>(members, "id"@);
        let vcm = optional::<bool>(members, "vcm"@);
        let ext = optional::<serde_json::Map<String, Value>>(members, "ext"@);
        if format is Err {
            Err(format->Err_0)
        } else if w is Err {
            Err(w->Err_0)
        } else if h is Err {
            Err(h->Err_0)
        } else if wmax is Err {
            Err(wmax->Err_0)
        } else if hmax is Err {
            Err(hmax->Err_0)
        } else if wmin is Err {
            Err(wmin->Err_0)
        } else if hmin is Err {
            Err(hmin->Err_0)
        } else if btype is Err {
            Err(btype->Err_0)
        } else if battr is Err {
            Err(battr->Err_0)
        } else if pos is Err {
            Err(pos->Err_0)
        } else if mimes is Err {
            Err(mimes->Err_0)
        } else if topframe is Err {
            Err(topframe->Err_0)
        } else if expdir is Err {
            Err(expdir->Err_0)
        } else if api is Err {
            Err(api->Err_0)
        } else if id is Err {
            Err(id->Err_0)
        } else if vcm is Err {
            Err(vcm->Err_0)
        } else if ext is Err {
            Err(ext->Err_0)
        } else {
            Ok(BannerView {
                format: format->Ok_0,
                w: w->Ok_0,
                h: h->Ok_0,
                wmax: wmax->Ok_0,
                hmax: hmax->Ok_0,
                wmin: wmin->Ok_0,
                hmin: hmin->Ok_0,
                btype: btype->Ok_0,
                battr: battr->Ok_0,
                pos: pos->Ok_0,
                mimes: mimes->Ok_0,
                topframe: topframe->Ok_0,
                expdir: expdir->Ok_0,
                api: api->Ok_0,
                id: id->Ok_0,
                vcm: vcm->Ok_0,
                ext: ext->Ok_0,
            })
        }
    }
}

impl Default for Banner {
    /// The value whose optional fields are absent and whose other fields have their
    /// defaults.
    fn default() -> (r: Banner)
        ensures
            r.model() == BannerView::default(),
    {
        Banner {
            format: None,
            w: None,
            h: None,
            wmax: None,
            hmax: None,
            wmin: None,
            hmin: None,
            btype: None,
            battr: None,
            pos: None,
            mimes: None,
            topframe: None,
            expdir: None,
            api: None,
            id: None,
            vcm: None,
            ext: None,
        }
    }
}

/// The lengths of the keys, and the letters that tell keys of one length apart: no two
/// keys are the same.
proof fn lemma_keys()
    ensures
        "format"@.len() == 6 && "format"@[0] == 'f',
        "w"@.len() == 1 && "w"@[0] == 'w',
        "h"@.len() == 1 && "h"@[0] == 'h',
        "wmax"@.len() == 4 && "wmax"@[0] == 'w' && "wmax"@[2] == 'a',
        "hmax"@.len() == 4 && "hmax"@[0] == 'h' && "hmax"@[2] == 'a',
        "wmin"@.len() == 4 && "wmin"@[0] == 'w' && "wmin"@[2] == 'i',
        "hmin"@.len() == 4 && "hmin"@[0] == 'h' && "hmin"@[2] == 'i',
        "btype"@.len() == 5 && "btype"@[1] == 't',
        "battr"@.len() == 5 && "battr"@[1] == 'a',
        "pos"@.len() == 3 && "pos"@[0] == 'p',
        "mimes"@.len() == 5 && "mimes"@[1] == 'i',
        "topframe"@.len() == 8,
        "expdir"@.len() == 6 && "expdir"@[0] == 'e',
        "api"@.len() == 3 && "api"@[0] == 'a',
        "id"@.len() == 2,
        "vcm"@.len() == 3 && "vcm"@[0] == 'v',
        "ext"@.len() == 3 && "ext"@[0] == 'e',
{
    reveal_strlit("format");
    reveal_strlit("w");
    reveal_strlit("h");
    reveal_strlit("wmax");
    reveal_strlit("hmax");
    reveal_strlit("wmin");
    reveal_strlit("hmin");
    reveal_strlit("btype");
    reveal_strlit("battr");
    reveal_strlit("pos");
    reveal_strlit("mimes");
    reveal_strlit("topframe");
    reveal_strlit("expdir");
    reveal_strlit("api");
    reveal_strlit("id");
    reveal_strlit("vcm");
    reveal_strlit("ext");
}

/// What is found under each key among the members that a value is encoded to.
proof fn lemma_members(m: BannerView)
    ensures
        lookup(m.members(), "format"@) == written::<Vec<Format>>(m.format),
        lookup(m.members(), "w"@) == written::<i32>(m.w),
        lookup(m.members(), "h"@) == written::<i32>(m.h),
        lookup(m.members(), "wmax"@) is None,
        lookup(m.members(), "hmax"@) is None,
        lookup(m.members(), "wmin"@) is None,
        lookup(m.members(), "hmin"@) is None,
        lookup(m.members(), "btype"@) == written::<Vec<BannerAdType>>(m.btype),
        lookup(m.members(), "battr"@) == written::<Vec<CreativeAttribute>>(m.battr),
        lookup(m.members(), "pos"@) == written::<AdPosition>(m.pos),
        lookup(m.members(), "mimes"@) == written::<Vec<String>>(m.mimes),
        lookup(m.members(), "topframe"@) == written::<bool>(m.topframe),
        lookup(m.members(), "expdir"@) == written::<Vec<ExpandableDirection>>(m.expdir),
        lookup(m.members(), "api"@) == written::<Vec<ApiFramework>>(m.api),
        lookup(m.members(), "id"@) == written::<String>(m.id),
        lookup(m.members(), "vcm"@) == written::<bool>(m.vcm),
        lookup(m.members(), "ext"@) == written::<serde_json::Map<String, Value>>(m.ext),
{
    broadcast use {lemma_lookup_with, lemma_lookup_with_some, lemma_lookup_with_unless};
    lemma_keys();
    assert forall|key: Seq<char>| lookup(Seq::empty(), key) is None by {
        lemma_lookup_empty(key);
    }
}

impl Codec for Banner {
    type Model = BannerView;

    open spec fn model(&self) -> BannerView {
        BannerView {
            format: model_of_option::<Vec<Format>>(self.format),
            w: model_of_option::<i32>(self.w),
            h: model_of_option::<i32>(self.h),
            wmax: model_of_option::<i32>(self.wmax),
            hmax: model_of_option::<i32>(self.hmax),
            wmin: model_of_option::<i32>(self.wmin),
            hmin: model_of_option::<i32>(self.hmin),
            btype: model_of_option::<Vec<BannerAdType>>(self.btype),
            battr: model_of_option::<Vec<CreativeAttribute>>(self.battr),
            pos: model_of_option::<AdPosition>(self.pos),
            mimes: model_of_option::<Vec<String>>(self.mimes),
            topframe: model_of_option::<bool>(self.topframe),
            expdir: model_of_option::<Vec<ExpandableDirection>>(self.expdir),
            api: model_of_option::<Vec<ApiFramework>>(self.api),
            id: model_of_option::<String>(self.id),
            vcm: model_of_option::<bool>(self.vcm),
            ext: model_of_option::<serde_json::Map<String, Value>>(self.ext),
        }
    }

    open spec fn valid(m: BannerView) -> bool {
        m.valid()
    }

    open spec fn current(m: BannerView) -> bool {
        m.current()
    }

    open spec fn encoded(m: BannerView) -> Json {
        Json::Object(m.members())
    }

    open spec fn decoded(json: Json) -> Result<BannerView, ErrorView> {
        match json {
            Json::Object(members) => BannerView::of_members(members),
            _ => Err(ErrorView::shape(json, "an object"@)),
        }
    }

    fn to_value(&self) -> (value: Value) {
        let mut map = serde_json::Map::new();
        put_some::<Vec<Format>>(&mut map, "format", &self.format);
        put_some::<i32>(&mut map, "w", &self.w);
        put_some::<i32>(&mut map, "h", &self.h);
        put_some::<Vec<BannerAdType>>(&mut map, "btype", &self.btype);
        put_some::<Vec<CreativeAttribute>>(&mut map, "battr", &self.battr);
        put_some::<AdPosition>(&mut map, "pos", &self.pos);
        put_some::<Vec<String>>(&mut map, "mimes", &self.mimes);
        put_some::<bool>(&mut map, "topframe", &self.topframe);
        put_some::<Vec<ExpandableDirection>>(&mut map, "expdir", &self.expdir);
        put_some::<Vec<ApiFramework>>(&mut map, "api", &self.api);
        put_some::<String>(&mut map, "id", &self.id);
        put_some::<bool>(&mut map, "vcm", &self.vcm);
        put_some::<serde_json::Map<String, Value>>(&mut map, "ext", &self.ext);
        value_from_map(map)
    }

    fn from_value(value: &Value) -> (r: Result<Banner, Error>) {
        match value.as_object() {
            None => Err(Error::shape(value, "an object")),
            Some(map) => {
                let format = get_option::<Vec<Format>>(map, "format")?;
                let w = get_option::<i32>(map, "w")?;
                let h = get_option::<i32>(map, "h")?;
                let wmax = get_option::<i32>(map, "wmax")?;
                let hmax = get_option::<i32>(map, "hmax")?;
                let wmin = get_option::<i32>(map, "wmin")?;
                let hmin = get_option::<i32>(map, "hmin")?;
                let btype = get_option::<Vec<BannerAdType>>(map, "btype")?;
                let battr = get_option::<Vec<CreativeAttribute>>(map, "battr")?;
                let pos = get_option::<AdPosition>(map, "pos")?;
                let mimes = get_option::<Vec<String>>(map, "mimes")?;
                let topframe = get_option::<bool>(map, "topframe")?;
                let expdir = get_option::<Vec<ExpandableDirection>>(map, "expdir")?;
                let api = get_option::<Vec<ApiFramework>>(map, "api")?;
                let id = get_option::<String>(map, "id")?;
                let vcm = get_option::<bool>(map, "vcm")?;
                let ext = get_option::<serde_json::Map<String, Value>>(map, "ext")?;
                Ok(Banner {
                    format, w, h, wmax, hmax, wmin, hmin, btype, battr, pos, mimes, topframe,
                    expdir, api, id, vcm, ext,
                })
            },
        }
    }

    proof fn round_trip(m: BannerView) {
        lemma_members(m);
        let members = m.members();
        lemma_optional::<Vec<Format>>(members, "format"@, m.format);
        lemma_optional::<i32>(members, "w"@, m.w);
        lemma_optional::<i32>(members, "h"@, m.h);
        lemma_optional::<i32>(members, "wmax"@, m.wmax);
        lemma_optional::<i32>(members, "hmax"@, m.hmax);
        lemma_optional::<i32>(members, "wmin"@, m.wmin);
        lemma_optional::<i32>(members, "hmin"@, m.hmin);
        lemma_optional::<Vec<BannerAdType>>(members, "btype"@, m.btype);
        lemma_optional::<Vec<CreativeAttribute>>(members, "battr"@, m.battr);
        lemma_optional::<AdPosition>(members, "pos"@, m.pos);
        lemma_optional::<Vec<String>>(members, "mimes"@, m.mimes);
        lemma_optional::<bool>(members, "topframe"@, m.topframe);
        lemma_optional::<Vec<ExpandableDirection>>(members, "expdir"@, m.expdir);
        lemma_optional::<Vec<ApiFramework>>(members, "api"@, m.api);
        lemma_optional::<String>(members, "id"@, m.id);
        lemma_optional::<bool>(members, "vcm"@, m.vcm);
        lemma_optional::<serde_json::Map<String, Value>>(members, "ext"@, m.ext);
    }

    proof fn decoded_valid(json: Json) {
        if let Json::Object(members) = json {
            lemma_optional_valid::<Vec<Format>>(members, "format"@);
        }
    }
}

/// A default value is encoded to the least document: its required members, and no other.
pub proof fn default_is_minimal()
    ensures
        Banner::encoded(BannerView::default()) == Json::Object(Seq::empty()),
{
    reveal(with_some);
    let d = BannerView::default();
    assert(d.members() =~= Seq::empty());
}

} // verus!
