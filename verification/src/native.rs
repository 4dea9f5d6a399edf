//! The Native object (OpenRTB 2.5, section 3.2.9).

use vstd::prelude::*;
use serde_json::Value;
use crate::api_framework::ApiFramework;
use crate::codec::{
    Codec, get, get_option, lemma_lookup_with, lemma_lookup_with_some, lemma_lookup_with_unless,
    lemma_optional, lemma_required, model_of_option, optional, put, put_some, required, with,
    with_some, written,
};
use crate::creative_attribute::CreativeAttribute;
use crate::error::{Error, ErrorView};
use crate::json::{Json, Members, lemma_insert_fresh, lemma_lookup_empty, lookup};
use crate::value::value_from_map;

verus! {

/// Native (OpenRTB 2.5, section 3.2.9).
///
/// This object represents a native type impression. Native ad units are intended to blend
/// seamlessly into the surrounding content (e.g., a sponsored Twitter or Facebook post). As
/// such, the response must be well-structured to afford the publisher fine-grained control over
/// rendering.
///
/// It defines the request parameters and response markup structure of native ad units. This
/// object provides the means of transporting request parameters as an opaque string so that the
/// specific parameters can evolve separately under the auspices of the Dynamic Native Ads API.
///
/// The presence of a Native as a subordinate of the Imp object indicates that this impression
/// is offered as a native type impression. At the publisher's discretion, that same impression
/// may also be offered as banner, video, and/or audio by also including as Imp subordinates
/// objects of those types. However, any given bid for the impression must conform to one of the
/// offered types.
#[derive(Clone, Debug, PartialEq)]
pub struct Native {
    /// Required.
    pub request: String,
    /// Version of the Dynamic Native Ads API to which request complies; highly recommended for
    /// efficient parsing.
    pub ver: Option<String>,
    /// List of supported API frameworks for this impression. Refer to List 5.6. If an API is
    /// not explicitly listed, it is assumed not to be supported.
    pub api: Option<Vec<ApiFramework>>,
    /// Blocked creative attributes. Refer to List 5.3.
    pub battr: Option<Vec<CreativeAttribute>>,
    /// Placeholder for exchange-specific extensions to OpenRTB.
    pub ext: Option<serde_json::Map<String, Value>>,
}

/// The model of a [`Native`]: the same fields, as plain values.
pub struct NativeView {
    pub request: Seq<char>,
    pub ver: Option<Seq<char>>,
    pub api: Option<Seq<ApiFramework>>,
    pub battr: Option<Seq<CreativeAttribute>>,
    pub ext: Option<Members>,
}

impl NativeView {
    /// The value that [`Native::default`] stands for.
    pub open spec fn default() -> NativeView {
        NativeView {
            request: Seq::<char>::empty(),
            ver: None,
            api: None,
            battr: None,
            ext: None,
        }
    }

    /// Whether encoding this value and decoding it again yields it: each part of it is
    /// valid.
    pub open spec fn valid(self) -> bool {
        true
    }

    /// Whether no deprecated field is set in this value, at any depth.
    pub open spec fn current(self) -> bool {
        true
    }

    /// The members that this value is encoded to, in order.
    pub open spec fn members(self) -> Members {
        let m = Seq::<(Seq<char>, Json)>::empty();
        let m = with::<String>(m, "request"@, self.request);
        let m = with_some::<String>(m, "ver"@, self.ver);
        let m = with_some::<Vec<ApiFramework>>(m, "api"@, self.api);
        let m = with_some::<Vec<CreativeAttribute>>(m, "battr"@, self.battr);
        let m = with_some::<serde_json::Map<String, Value>>(m, "ext"@, self.ext);
        m
    }

    /// What decoding an object of these members yields: the value, or the error of the
    /// first field, in the order of the fields, whose member is not accepted.
    pub open spec fn of_members(members: Members) -> Result<NativeView, ErrorView> {
        let request = required::<String>(members, "request"@);
        let ver = optional::<String>(members, "ver"@);
        let api = optional::<Vec<ApiFramework>>(members, "api"@);
        let battr = optional::<Vec<CreativeAttribute>>(members, "battr"@);
        let ext = optional::<serde_json::Map<String, Value>>(members, "ext"@);
        if request is Err {
            Err(request->Err_0)
        } else if ver is Err {
            Err(ver->Err_0)
        } else if api is Err {
            Err(api->Err_0)
        } else if battr is Err {
            Err(battr->Err_0)
        } else if ext is Err {
            Err(ext->Err_0)
        } else {
            Ok(NativeView {
                request: request->Ok_0,
                ver: ver->Ok_0,
                api: api->Ok_0,
                battr: battr->Ok_0,
                ext: ext->Ok_0,
            })
        }
    }
}

impl Default for Native {
    /// The value whose optional fields are absent and whose other fields have their
    /// defaults.
    fn default() -> (r: Native)
        ensures
            r.model() == NativeView::default(),
    {
        Native {
            request: String::new(),
            ver: None,
            api: None,
            battr: None,
            ext: None,
        }
    }
}

/// The lengths of the keys, and the letters that tell keys of one length apart: no two
/// keys are the same.
proof fn lemma_keys()
    ensures
        "request"@.len() == 7,
        "ver"@.len() == 3 && "ver"@[0] == 'v',
        "api"@.len() == 3 && "api"@[0] == 'a',
        "battr"@.len() == 5,
        "ext"@.len() == 3 && "ext"@[0] == 'e',
{
    reveal_strlit("request");
    reveal_strlit("ver");
    reveal_strlit("api");
    reveal_strlit("battr");
    reveal_strlit("ext");
}

/// What is found under each key among the members that a value is encoded to.
proof fn lemma_members(m: NativeView)
    ensures
        lookup(m.members(), "request"@) == Some(<String as Codec>::encoded(m.request)),
        lookup(m.members(), "ver"@) == written::<String>(m.ver),
        lookup(m.members(), "api"@) == written::<Vec<ApiFramework>>(m.api),
        lookup(m.members(), "battr"@) == written::<Vec<CreativeAttribute>>(m.battr),
        lookup(m.members(), "ext"@) == written::<serde_json::Map<String, Value>>(m.ext),
{
    broadcast use {lemma_lookup_with, lemma_lookup_with_some, lemma_lookup_with_unless};
    lemma_keys();
    assert forall|key: Seq<char>| lookup(Seq::empty(), key) is None by {
        lemma_lookup_empty(key);
    }
}

impl Codec for Native {
    type Model = NativeView;

    open spec fn model(&self) -> NativeView {
        NativeView {
            request: self.request.model(),
            ver: model_of_option::<String>(self.ver),
            api: model_of_option::<Vec<ApiFramework>>(self.api),
            battr: model_of_option::<Vec<CreativeAttribute>>(self.battr),
            ext: model_of_option::<serde_json::Map<String, Value>>(self.ext),
        }
    }

    open spec fn valid(m: NativeView) -> bool {
        m.valid()
    }

    open spec fn current(m: NativeView) -> bool {
        m.current()
    }

    open spec fn encoded(m: NativeView) -> Json {
        Json::Object(m.members())
    }

    open spec fn decoded(json: Json) -> Result<NativeView, ErrorView> {
        match json {
            Json::Object(members) => NativeView::of_members(members),
            _ => Err(ErrorView::shape(json, "an object"@)),
        }
    }

    fn to_value(&self) -> (value: Value) {
        let mut map = serde_json::Map::new();
        put::<String>(&mut map, "request", &self.request);
        put_some::<String>(&mut map, "ver", &self.ver);
        put_some::<Vec<ApiFramework>>(&mut map, "api", &self.api);
        put_some::<Vec<CreativeAttribute>>(&mut map, "battr", &self.battr);
        put_some::<serde_json::Map<String, Value>>(&mut map, "ext", &self.ext);
        value_from_map(map)
    }

    fn from_value(value: &Value) -> (r: Result<Native, Error>) {
        match value.as_object() {
            None => Err(Error::shape(value, "an object")),
            Some(map) => {
                let request = get::<String>(map, "request")?;
                let ver = get_option::<String>(map, "ver")?;
                let api = get_option::<Vec<ApiFramework>>(map, "api")?;
                let battr = get_option::<Vec<CreativeAttribute>>(map, "battr")?;
                let ext = get_option::<serde_json::Map<String, Value>>(map, "ext")?;
                Ok(Native { request, ver, api, battr, ext })
            },
        }
    }

    proof fn round_trip(m: NativeView) {
        lemma_members(m);
        let members = m.members();
        lemma_required::<String>(members, "request"@, m.request);
        lemma_optional::<String>(members, "ver"@, m.ver);
        lemma_optional::<Vec<ApiFramework>>(members, "api"@, m.api);
        lemma_optional::<Vec<CreativeAttribute>>(members, "battr"@, m.battr);
        lemma_optional::<serde_json::Map<String, Value>>(members, "ext"@, m.ext);
    }

    proof fn decoded_valid(json: Json) {
        if let Json::Object(members) = json {
        }
    }
}

/// A default value is encoded to the least document: its required members, and no other.
pub proof fn default_is_minimal()
    ensures
        Native::encoded(NativeView::default()) == Json::Object(
            seq![
                ("request"@, Json::Text(Seq::empty())),
            ],
        ),
{
    reveal(with);
    reveal(with_some);
    let d = NativeView::default();
    let m = Seq::<(Seq<char>, Json)>::empty();
    lemma_insert_fresh(m, "request"@, <String as Codec>::encoded(d.request));
    let m = m.push(("request"@, <String as Codec>::encoded(d.request)));
    assert(d.members() == m);
    assert(m =~= seq![
        ("request"@, Json::Text(Seq::empty())),
    ]);
}

} // verus!
