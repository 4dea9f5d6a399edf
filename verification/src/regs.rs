//! The Regs object (OpenRTB 2.5, section 3.2.3).

use vstd::prelude::*;
use serde_json::Value;
use crate::codec::{
    Codec, get_option, lemma_lookup_with, lemma_lookup_with_some, lemma_lookup_with_unless,
    lemma_optional, model_of_option, optional, put_some, with_some, written,
};
use crate::error::{Error, ErrorView};
use crate::json::{Json, Members, lemma_lookup_empty, lookup};
use crate::value::value_from_map;

verus! {

/// Regs (OpenRTB 2.5, section 3.2.3).
///
/// This object contains any legal, governmental, or industry regulations that apply to the
/// request. The coppa flag signals whether or not the request falls under the United States
/// Federal Trade Commission's regulations for the United States Children's Online Privacy
/// Protection Act ("COPPA").
#[derive(Clone, Debug, PartialEq)]
pub struct Regs {
    /// Flag indicating if this request is subject to the COPPA regulations established by the
    /// USA FTC, where 0 = no, 1 = yes. Refer to Section 7.5 for more information.
    pub coppa: Option<bool>,
    /// Placeholder for exchange-specific extensions to OpenRTB.
    pub ext: Option<serde_json::Map<String, Value>>,
}

/// The model of a [`Regs`]: the same fields, as plain values.
pub struct RegsView {
    pub coppa: Option<bool>,
    pub ext: Option<Members>,
}

impl RegsView {
    /// The value that [`Regs::default`] stands for.
    pub open spec fn default() -> RegsView {
        RegsView {
            coppa: None,
            ext: None,
        }
    }

    /// Whether encoding this value and decoding it again yields it: each part of it is
    /// valid.
    pub open spec fn valid(self) -> bool {
        true
    }

    /// Whether no deprecated field is set in this value, at any depth.
    pub open spec fn current(self) -> bool {
        true
    }

    /// The members that this value is encoded to, in order.
    pub open spec fn members(self) -> Members {
        let m = Seq::<(Seq<char>, Json)>::empty();
        let m = with_some::<bool>(m, "coppa"@, self.coppa);
        let m = with_some::<serde_json::Map<String, Value>>(m, "ext"@, self.ext);
        m
    }

    /// What decoding an object of these members yields: the value, or the error of the
    /// first field, in the order of the fields, whose member is not accepted.
    pub open spec fn of_members(members: Members) -> Result<RegsView, ErrorView> {
        let coppa = optional::<bool>(members, "coppa"@);
        let ext = optional::<serde_json::Map<String, Value>>(members, "ext"@);
        if coppa is Err {
            Err(coppa->Err_0)
        } else if ext is Err {
            Err(ext->Err_0)
        } else {
            Ok(RegsView {
                coppa: coppa->Ok_0,
                ext: ext->Ok_0,
            })
        }
    }
}

impl Default for Regs {
    /// The value whose optional fields are absent and whose other fields have their
    /// defaults.
    fn default() -> (r: Regs)
        ensures
            r.model() == RegsView::default(),
    {
        Regs {
            coppa: None,
            ext: None,
        }
    }
}

/// The lengths of the keys, and the letters that tell keys of one length apart: no two
/// keys are the same.
proof fn lemma_keys()
    ensures
        "coppa"@.len() == 5,
        "ext"@.len() == 3,
{
    reveal_strlit("coppa");
    reveal_strlit("ext");
}

/// What is found under each key among the members that a value is encoded to.
proof fn lemma_members(m: RegsView)
    ensures
        lookup(m.members(), "coppa"@) == written::<bool>(m.coppa),
        lookup(m.members(), "ext"@) == written::<serde_json::Map<String, Value>>(m.ext),
{
    broadcast use {lemma_lookup_with, lemma_lookup_with_some, lemma_lookup_with_unless};
    lemma_keys();
    assert forall|key: Seq<char>| lookup(Seq::empty(), key) is None by {
        lemma_lookup_empty(key);
    }
}

impl Codec for Regs {
    type Model = RegsView;

    open spec fn model(&self) -> RegsView {
        RegsView {
            coppa: model_of_option::<bool>(self.coppa),
            ext: model_of_option::<serde_json::Map<String, Value>>(self.ext),
        }
    }

    open spec fn valid(m: RegsView) -> bool {
        m.valid()
    }

    open spec fn current(m: RegsView) -> bool {
        m.current()
    }

    open spec fn encoded(m: RegsView) -> Json {
        Json::Object(m.members())
    }

    open spec fn decoded(json: Json) -> Result<RegsView, ErrorView> {
        match json {
            Json::Object(members) => RegsView::of_members(members),
            _ => Err(ErrorView::shape(json, "an object"@)),
        }
    }

    fn to_value(&self) -> (value: Value) {
        let mut map = serde_json::Map::new();
        put_some::<bool>(&mut map, "coppa", &self.coppa);
        put_some::<serde_json::Map<String, Value>>(&mut map, "ext", &self.ext);
        value_from_map(map)
    }

    fn from_value(value: &Value) -> (r: Result<Regs, Error>) {
        match value.as_object() {
            None => Err(Error::shape(value, "an object")),
            Some(map) => {
                let coppa = get_option::<bool>(map, "coppa")?;
                let ext = get_option::<serde_json::Map<String, Value>>(map, "ext")?;
                Ok(Regs { coppa, ext })
            },
        }
    }

    proof fn round_trip(m: RegsView) {
        lemma_members(m);
        let members = m.members();
        lemma_optional::<bool>(members, "coppa"@, m.coppa);
        lemma_optional::<serde_json::Map<String, Value>>(members, "ext"@, m.ext);
    }

    proof fn decoded_valid(json: Json) {
        if let Json::Object(members) = json {
        }
    }
}

/// A default value is encoded to the least document: its required members, and no other.
pub proof fn default_is_minimal()
    ensures
        Regs::encoded(RegsView::default()) == Json::Object(Seq::empty()),
{
    reveal(with_some);
    let d = RegsView::default();
    assert(d.members() =~= Seq::empty());
}

} // verus!
