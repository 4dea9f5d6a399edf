//! The Source object (OpenRTB 2.5, section 3.2.2).

use vstd::prelude::*;
use serde_json::Value;
use crate::codec::{
    Codec, get_option, lemma_lookup_with, lemma_lookup_with_some, lemma_lookup_with_unless,
    lemma_optional, model_of_option, optional, put_some, with_some, written,
};
use crate::error::{Error, ErrorView};
use crate::json::{Json, Members, lemma_lookup_empty, lookup};
use crate::value::value_from_map;

verus! {

/// Source (OpenRTB 2.5, section 3.2.2).
///
/// This object describes the nature and behavior of the entity that is the source of the bid
/// request upstream from the exchange. The primary purpose of this object is to define
/// post-auction or upstream decisioning when the exchange itself does not control the final
/// decision. A common example of this is header bidding, but it can also apply to upstream
/// server entities such as another RTB exchange, a mediation platform, or an ad server combines
/// direct campaigns with 3rd party demand in decisioning.
#[derive(Clone, Debug, PartialEq)]
pub struct Source {
    /// Entity responsible for the final impression sale decision, where 0 = exchange, 1 =
    /// upstream source.
    pub fd: Option<bool>,
    /// Transaction ID that must be common across all participants in this bid request (e.g.,
    /// potentially multiple exchanges).
    pub tid: Option<String>,
    /// Payment ID chain string containing embedded syntax described in the TAG Payment ID
    /// Protocol v1.0.
    pub pchain: Option<String>,
    /// Placeholder for exchange-specific extensions to OpenRTB.
    pub ext: Option<serde_json::Map<String, Value>>,
}

/// The model of a [`Source`]: the same fields, as plain values.
pub struct SourceView {
    pub fd: Option<bool>,
    pub tid: Option<Seq<char>>,
    pub pchain: Option<Seq<char>>,
    pub ext: Option<Members>,
}

impl SourceView {
    /// The value that [`Source::default`] stands for.
    pub open spec fn default() -> SourceView {
        SourceView {
            fd: None,
            tid: None,
            pchain: None,
            ext: None,
        }
    }

    /// Whether encoding this value and decoding it again yields it: each part of it is
    /// valid.
    pub open spec fn valid(self) -> bool {
        true
    }

    /// Whether no deprecated field is set in this value, at any depth.
    pub open spec fn current(self) -> bool {
        true
    }

    /// The members that this value is encoded to, in order.
    pub open spec fn members(self) -> Members {
        let m = Seq::<(Seq<char>, Json)>::empty();
        let m = with_some::<bool>(m, "fd"@, self.fd);
        let m = with_some::<String>(m, "tid"@, self.tid);
        let m = with_some::<String>(m, "pchain"@, self.pchain);
        let m = with_some::<serde_json::Map<String, Value>>(m, "ext"@, self.ext);
        m
    }

    /// What decoding an object of these members yields: the value, or the error of the
    /// first field, in the order of the fields, whose member is not accepted.
    pub open spec fn of_members(members: Members) -> Result<SourceView, ErrorView> {
        let fd = optional::<bool>(members, "fd"@);
        let tid = optional::<String>(members, "tid"@);
        let pchain = optional::<String>(members, "pchain"@);
        let ext = optional::<serde_json::Map<String, Value>>(members, "ext"@);
        if fd is Err {
            Err(fd->Err_0)
        } else if tid is Err {
            Err(tid->Err_0)
        } else if pchain is Err {
            Err(pchain->Err_0)
        } else if ext is Err {
            Err(ext->Err_0)
        } else {
            Ok(SourceView {
                fd: fd->Ok_0,
                tid: tid->Ok_0,
                pchain: pchain->Ok_0,
                ext: ext->Ok_0,
            })
        }
    }
}

impl Default for Source {
    /// The value whose optional fields are absent and whose other fields have their
    /// defaults.
    fn default() -> (r: Source)
        ensures
            r.model() == SourceView::default(),
    {
        Source {
            fd: None,
            tid: None,
            pchain: None,
            ext: None,
        }
    }
}

/// The lengths of the keys, and the letters that tell keys of one length apart: no two
/// keys are the same.
proof fn lemma_keys()
    ensures
        "fd"@.len() == 2,
        "tid"@.len() == 3 && "tid"@[0] == 't',
        "pchain"@.len() == 6,
        "ext"@.len() == 3 && "ext"@[0] == 'e',
{
    reveal_strlit("fd");
    reveal_strlit("tid");
    reveal_strlit("pchain");
    reveal_strlit("ext");
}

/// What is found under each key among the members that a value is encoded to.
proof fn lemma_members(m: SourceView)
    ensures
        lookup(m.members(), "fd"@) == written::<bool>(m.fd),
        lookup(m.members(), "tid"@) == written::<String>(m.tid),
        lookup(m.members(), "pchain"@) == written::<String>(m.pchain),
        lookup(m.members(), "ext"@) == written::<serde_json::Map<String, Value>>(m.ext),
{
    broadcast use {lemma_lookup_with, lemma_lookup_with_some, lemma_lookup_with_unless};
    lemma_keys();
    assert forall|key: Seq<char>| lookup(Seq::empty(), key) is None by {
        lemma_lookup_empty(key);
    }
}

impl Codec for Source {
    type Model = SourceView;

    open spec fn model(&self) -> SourceView {
        SourceView {
            fd: model_of_option::<bool>(self.fd),
            tid: model_of_option::<String>(self.tid),
            pchain: model_of_option::<String>(self.pchain),
            ext: model_of_option::<serde_json::Map<String, Value>>(self.ext),
        }
    }

    open spec fn valid(m: SourceView) -> bool {
        m.valid()
    }

    open spec fn current(m: SourceView) -> bool {
        m.current()
    }

    open spec fn encoded(m: SourceView) -> Json {
        Json::Object(m.members())
    }

    open spec fn decoded(json: Json) -> Result<SourceView, ErrorView> {
        match json {
            Json::Object(members) => SourceView::of_members(members),
            _ => Err(ErrorView::shape(json, "an object"@)),
        }
    }

    fn to_value(&self) -> (value: Value) {
        let mut map = serde_json::Map::new();
        put_some::<bool>(&mut map, "fd", &self.fd);
        put_some::<String>(&mut map, "tid", &self.tid);
        put_some::<String>(&mut map, "pchain", &self.pchain);
        put_some::<serde_json::Map<String, Value>>(&mut map, "ext", &self.ext);
        value_from_map(map)
    }

    fn from_value(value: &Value) -> (r: Result<Source, Error>) {
        match value.as_object() {
            None => Err(Error::shape(value, "an object")),
            Some(map) => {
                let fd = get_option::<bool>(map, "fd")?;
                let tid = get_option::<String>(map, "tid")?;
                let pchain = get_option::<String>(map, "pchain")?;
                let ext = get_option::<serde_json::Map<String, Value>>(map, "ext")?;
                Ok(Source { fd, tid, pchain, ext })
            },
        }
    }

    proof fn round_trip(m: SourceView) {
        lemma_members(m);
        let members = m.members();
        lemma_optional::<bool>(members, "fd"@, m.fd);
        lemma_optional::<String>(members, "tid"@, m.tid);
        lemma_optional::<String>(members, "pchain"@, m.pchain);
        lemma_optional::<serde_json::Map<String, Value>>(members, "ext"@, m.ext);
    }

    proof fn decoded_valid(json: Json) {
        if let Json::Object(members) = json {
        }
    }
}

/// A default value is encoded to the least document: its required members, and no other.
pub proof fn default_is_minimal()
    ensures
        Source::encoded(SourceView::default()) == Json::Object(Seq::empty()),
{
    reveal(with_some);
    let d = SourceView::default();
    assert(d.members() =~= Seq::empty());
}

} // verus!
