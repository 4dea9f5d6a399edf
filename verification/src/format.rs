//! The Format object (OpenRTB 2.5, section 3.2.10).

use vstd::prelude::*;
use serde_json::Value;
use crate::codec::{
    Codec, get_option, lemma_lookup_with, lemma_lookup_with_some, lemma_lookup_with_unless,
    lemma_optional, model_of_option, optional, put_some, with_some, written,
};
use crate::error::{Error, ErrorView};
use crate::json::{Json, Members, lemma_lookup_empty, lookup};
use crate::value::value_from_map;

verus! {

/// Format (OpenRTB 2.5, section 3.2.10).
///
/// This object represents an allowed size (i.e., height and width combination) or Flex Ad
/// parameters for a banner impression. These are typically used in an array where multiple
/// sizes are permitted. It is recommended that either the w/h pair or the wratio/hratio/wmin
/// set (i.e., for Flex Ads) be specified.
#[derive(Clone, Debug, PartialEq)]
pub struct Format {
    /// Width in device independent pixels (DIPS).
    pub w: Option<i32>,
    /// Height in device independent pixels (DIPS).
    pub h: Option<i32>,
    /// Relative width when expressing size as a ratio.
    pub wratio: Option<i32>,
    /// Relative height when expressing size as a ratio.
    pub hratio: Option<i32>,
    /// The minimum width in device independent pixels (DIPS) at which the ad will be displayed
    /// the size is expressed as a ratio.
    pub wmin: Option<i32>,
    /// Placeholder for exchange-specific extensions to OpenRTB.
    pub ext: Option<serde_json::Map<String, Value>>,
}

/// The model of a [`Format`]: the same fields, as plain values.
pub struct FormatView {
    pub w: Option<i32>,
    pub h: Option<i32>,
    pub wratio: Option<i32>,
    pub hratio: Option<i32>,
    pub wmin: Option<i32>,
    pub ext: Option<Members>,
}

impl FormatView {
    /// The value that [`Format::default`] stands for.
    pub open spec fn default() -> FormatView {
        FormatView {
            w: None,
            h: None,
            wratio: None,
            hratio: None,
            wmin: None,
            ext: None,
        }
    }

    /// Whether encoding this value and decoding it again yields it: each part of it is
    /// valid.
    pub open spec fn valid(self) -> bool {
        true
    }

    /// Whether no deprecated field is set in this value, at any depth.
    pub open spec fn current(self) -> bool {
        true
    }

    /// The members that this value is encoded to, in order.
    pub open spec fn members(self) -> Members {
        let m = Seq::<(Seq<char>, Json)>::empty();
        let m = with_some::<i32>(m, "w"@, self.w);
        let m = with_some::<i32>(m, "h"@, self.h);
        let m = with_some::<i32>(m, "wratio"@, self.wratio);
        let m = with_some::<i32>(m, "hratio"@, self.hratio);
        let m = with_some::<i32>(m, "wmin"@, self.wmin);
        let m = with_some::<serde_json::Map<String, Value>>(m, "ext"@, self.ext);
        m
    }

    /// What decoding an object of these members yields: the value, or the error of the
    /// first field, in the order of the fields, whose member is not accepted.
    pub open spec fn of_members(members: Members) -> Result<FormatView, ErrorView> {
        let w = optional::<i32>(members, "w"@);
        let h = optional::<i32>(members, "h"@);
        let wratio = optional::<i32>(members, "wratio"@);
        let hratio = optional::<i32>(members, "hratio"@);
        let wmin = optional::<i32>(members, "wmin"@);
        let ext = optional::<serde_json::Map<String, Value>>(members, "ext"@);
        if w is Err {
            Err(w->Err_0)
        } else if h is Err {
            Err(h->Err_0)
        } else if wratio is Err {
            Err(wratio->Err_0)
        } else if hratio is Err {
            Err(hratio->Err_0)
        } else if wmin is Err {
            Err(wmin->Err_0)
        } else if ext is Err {
            Err(ext->Err_0)
        } else {
            Ok(FormatView {
                w: w->Ok_0,
                h: h->Ok_0,
                wratio: wratio->Ok_0,
                hratio: hratio->Ok_0,
                wmin: wmin->Ok_0,
                ext: ext->Ok_0,
            })
        }
    }
}

impl Default for Format {
    /// The value whose optional fields are absent and whose other fields have their
    /// defaults.
    fn default() -> (r: Format)
        ensures
            r.model() == FormatView::default(),
    {
        Format {
            w: None,
            h: None,
            wratio: None,
            hratio: None,
            wmin: None,
            ext: None,
        }
    }
}

/// The lengths of the keys, and the letters that tell keys of one length apart: no two
/// keys are the same.
proof fn lemma_keys()
    ensures
        "w"@.len() == 1 && "w"@[0] == 'w',
        "h"@.len() == 1 && "h"@[0] == 'h',
        "wratio"@.len() == 6 && "wratio"@[0] == 'w',
        "hratio"@.len() == 6 && "hratio"@[0] == 'h',
        "wmin"@.len() == 4,
        "ext"@.len() == 3,
{
    reveal_strlit("w");
    reveal_strlit("h");
    reveal_strlit("wratio");
    reveal_strlit("hratio");
    reveal_strlit("wmin");
    reveal_strlit("ext");
}

/// What is found under each key among the members that a value is encoded to.
proof fn lemma_members(m: FormatView)
    ensures
        lookup(m.members(), "w"@) == written::<i32>(m.w),
        lookup(m.members(), "h"@) == written::<i32>(m.h),
        lookup(m.members(), "wratio"@) == written::<i32>(m.wratio),
        lookup(m.members(), "hratio"@) == written::<i32>(m.hratio),
        lookup(m.members(), "wmin"@) == written::<i32>(m.wmin),
        lookup(m.members(), "ext"@) == written::<serde_json::Map<String, Value>>(m.ext),
{
    broadcast use {lemma_lookup_with, lemma_lookup_with_some, lemma_lookup_with_unless};
    lemma_keys();
    assert forall|key: Seq<char>| lookup(Seq::empty(), key) is None by {
        lemma_lookup_empty(key);
    }
}

impl Codec for Format {
    type Model = FormatView;

    open spec fn model(&self) -> FormatView {
        FormatView {
            w: model_of_option::<i32>(self.w),
            h: model_of_option::<i32>(self.h),
            wratio: model_of_option::<i32>(self.wratio),
            hratio: model_of_option::<i32>(self.hratio),
            wmin: model_of_option::<i32>(self.wmin),
            ext: model_of_option::<serde_json::Map<String, Value>>(self.ext),
        }
    }

    open spec fn valid(m: FormatView) -> bool {
        m.valid()
    }

    open spec fn current(m: FormatView) -> bool {
        m.current()
    }

    open spec fn encoded(m: FormatView) -> Json {
        Json::Object(m.members())
    }

    open spec fn decoded(json: Json) -> Result<FormatView, ErrorView> {
        match json {
            Json::Object(members) => FormatView::of_members(members),
            _ => Err(ErrorView::shape(json, "an object"@)),
        }
    }

    fn to_value(&self) -> (value: Value) {
        let mut map = serde_json::Map::new();
        put_some::<i32>(&mut map, "w", &self.w);
        put_some::<i32>(&mut map, "h", &self.h);
        put_some::<i32>(&mut map, "wratio", &self.wratio);
        put_some::<i32>(&mut map, "hratio", &self.hratio);
        put_some::<i32>(&mut map, "wmin", &self.wmin);
        put_some::<serde_json::Map<String, Value>>(&mut map, "ext", &self.ext);
        value_from_map(map)
    }

    fn from_value(value: &Value) -> (r: Result<Format, Error>) {
        match value.as_object() {
            None => Err(Error::shape(value, "an object")),
            Some(map) => {
                let w = get_option::<i32>(map, "w")?;
                let h = get_option::<i32>(map, "h")?;
                let wratio = get_option::<i32>(map, "wratio")?;
                let hratio = get_option::<i32>(map, "hratio")?;
                let wmin = get_option::<i32>(map, "wmin")?;
                let ext = get_option::<serde_json::Map<String, Value>>(map, "ext")?;
                Ok(Format { w, h, wratio, hratio, wmin, ext })
            },
        }
    }

    proof fn round_trip(m: FormatView) {
        lemma_members(m);
        let members = m.members();
        lemma_optional::<i32>(members, "w"@, m.w);
        lemma_optional::<i32>(members, "h"@, m.h);
        lemma_optional::<i32>(members, "wratio"@, m.wratio);
        lemma_optional::<i32>(members, "hratio"@, m.hratio);
        lemma_optional::<i32>(members, "wmin"@, m.wmin);
        lemma_optional::<serde_json::Map<String, Value>>(members, "ext"@, m.ext);
    }

    proof fn decoded_valid(json: Json) {
        if let Json::Object(members) = json {
        }
    }
}

/// A default value is encoded to the least document: its required members, and no other.
pub proof fn default_is_minimal()
    ensures
        Format::encoded(FormatView::default()) == Json::Object(Seq::empty()),
{
    reveal(with_some);
    let d = FormatView::default();
    assert(d.members() =~= Seq::empty());
}

} // verus!
