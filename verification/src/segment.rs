//! The Segment object (OpenRTB 2.5, section 3.2.22).

use vstd::prelude::*;
use serde_json::Value;
use crate::codec::{
    Codec, get_option, lemma_lookup_with, lemma_lookup_with_some, lemma_lookup_with_unless,
    lemma_optional, model_of_option, optional, put_some, with_some, written,
};
use crate::error::{Error, ErrorView};
use crate::json::{Json, Members, lemma_lookup_empty, lookup};
use crate::value::value_from_map;

verus! {

/// Segment (OpenRTB 2.5, section 3.2.22).
///
/// Segment objects are essentially key-value pairs that convey specific units of data. The
/// parent Data object is a collection of such values from a given data provider. The specific
/// segment names and value options must be published by the exchange a priori to its bidders.
#[derive(Clone, Debug, PartialEq)]
pub struct Segment {
    /// ID of the data segment specific to the data provider.
    pub id: Option<String>,
    /// Name of the data segment specific to the data provider.
    pub name: Option<String>,
    /// String representation of the data segment value.
    pub value: Option<String>,
    /// Placeholder for exchange-specific extensions to OpenRTB.
    pub ext: Option<serde_json::Map<String, Value>>,
}

/// The model of a [`Segment`]: the same fields, as plain values.
pub struct SegmentView {
    pub id: Option<Seq<char>>,
    pub name: Option<Seq<char>>,
    pub value: Option<Seq<char>>,
    pub ext: Option<Members>,
}

impl SegmentView {
    /// The value that [`Segment::default`] stands for.
    pub open spec fn default() -> SegmentView {
        SegmentView {
            id: None,
            name: None,
            value: None,
            ext: None,
        }
    }

    /// Whether encoding this value and decoding it again yields it: each part of it is
    /// valid.
    pub open spec fn valid(self) -> bool {
        true
    }

    /// Whether no deprecated field is set in this value, at any depth.
    pub open spec fn current(self) -> bool {
        true
    }

    /// The members that this value is encoded to, in order.
    pub open spec fn members(self) -> Members {
        let m = Seq::<(Seq<char>, Json)>::empty();
        let m = with_some::<String>(m, "id"@, self.id);
        let m = with_some::<String>(m, "name"@, self.name);
        let m = with_some::<String>(m, "value"@, self.value);
        let m = with_some::<serde_json::Map<String, Value>>(m, "ext"@, self.ext);
        m
    }

    /// What decoding an object of these members yields: the value, or the error of the
    /// first field, in the order of the fields, whose member is not accepted.
    pub open spec fn of_members(members: Members) -> Result<SegmentView, ErrorView> {
        let id = optional::<String>(members, "id"@);
        let name = optional::<String>(members, "name"@);
        let value = optional::<String>(members, "value"@);
        let ext = optional::<serde_json::Map<String, Value>>(members, "ext"@);
        if id is Err {
            Err(id->Err_0)
        } else if name is Err {
            Err(name->Err_0)
        } else if value is Err {
            Err(value->Err_0)
        } else if ext is Err {
            Err(ext->Err_0)
        } else {
            Ok(SegmentView {
                id: id->Ok_0,
                name: name->Ok_0,
                value: value->Ok_0,
                ext: ext->Ok_0,
            })
        }
    }
}

impl Default for Segment {
    /// The value whose optional fields are absent and whose other fields have their
    /// defaults.
    fn default() -> (r: Segment)
        ensures
            r.model() == SegmentView::default(),
    {
        Segment {
            id: None,
            name: None,
            value: None,
            ext: None,
        }
    }
}

/// The lengths of the keys, and the letters that tell keys of one length apart: no two
/// keys are the same.
proof fn lemma_keys()
    ensures
        "id"@.len() == 2,
        "name"@.len() == 4,
        "value"@.len() == 5,
        "ext"@.len() == 3,
{
    reveal_strlit("id");
    reveal_strlit("name");
    reveal_strlit("value");
    reveal_strlit("ext");
}

/// What is found under each key among the members that a value is encoded to.
proof fn lemma_members(m: SegmentView)
    ensures
        lookup(m.members(), "id"@) == written::<String>(m.id),
        lookup(m.members(), "name"@) == written::<String>(m.name),
        lookup(m.members(), "value"@) == written::<String>(m.value),
        lookup(m.members(), "ext"@) == written::<serde_json::Map<String, Value>>(m.ext),
{
    broadcast use {lemma_lookup_with, lemma_lookup_with_some, lemma_lookup_with_unless};
    lemma_keys();
    assert forall|key: Seq<char>| lookup(Seq::empty(), key) is None by {
        lemma_lookup_empty(key);
    }
}

impl Codec for Segment {
    type Model = SegmentView;

    open spec fn model(&self) -> SegmentView {
        SegmentView {
            id: model_of_option::<String>(self.id),
            name: model_of_option::<String>(self.name),
            value: model_of_option::<String>(self.value),
            ext: model_of_option::<serde_json::Map<String, Value>>(self.ext),
        }
    }

    open spec fn valid(m: SegmentView) -> bool {
        m.valid()
    }

    open spec fn current(m: SegmentView) -> bool {
        m.current()
    }

    open spec fn encoded(m: SegmentView) -> Json {
        Json::Object(m.members())
    }

    open spec fn decoded(json: Json) -> Result<SegmentView, ErrorView> {
        match json {
            Json::Object(members) => SegmentView::of_members(members),
            _ => Err(ErrorView::shape(json, "an object"@)),
        }
    }

    fn to_value(&self) -> (value: Value) {
        let mut map = serde_json::Map::new();
        put_some::<String>(&mut map, "id", &self.id);
        put_some::<String>(&mut map, "name", &self.name);
        put_some::<String>(&mut map, "value", &self.value);
        put_some::<serde_json::Map<String, Value>>(&mut map, "ext", &self.ext);
        value_from_map(map)
    }

    fn from_value(value: &Value) -> (r: Result<Segment, Error>) {
        match value.as_object() {
            None => Err(Error::shape(value, "an object")),
            Some(map) => {
                let id = get_option::<String>(map, "id")?;
                let name = get_option::<String>(map, "name")?;
                let value = get_option::<String>(map, "value")?;
                let ext = get_option::<serde_json::Map<String, Value>>(map, "ext")?;
                Ok(Segment { id, name, value, ext })
            },
        }
    }

    proof fn round_trip(m: SegmentView) {
        lemma_members(m);
        let members = m.members();
        lemma_optional::<String>(members, "id"@, m.id);
        lemma_optional::<String>(members, "name"@, m.name);
        lemma_optional::<String>(members, "value"@, m.value);
        lemma_optional::<serde_json::Map<String, Value>>(members, "ext"@, m.ext);
    }

    proof fn decoded_valid(json: Json) {
        if let Json::Object(members) = json {
        }
    }
}

/// A default value is encoded to the least document: its required members, and no other.
pub proof fn default_is_minimal()
    ensures
        Segment::encoded(SegmentView::default()) == Json::Object(Seq::empty()),
{
    reveal(with_some);
    let d = SegmentView::default();
    assert(d.members() =~= Seq::empty());
}

} // verus!
