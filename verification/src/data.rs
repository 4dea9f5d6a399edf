//! The Data object (OpenRTB 2.5, section 3.2.21).

use vstd::prelude::*;
use serde_json::Value;
use crate::codec::{
    Codec, current_option, get_option, lemma_lookup_with, lemma_lookup_with_some,
    lemma_lookup_with_unless, lemma_optional, lemma_optional_valid, model_of_option, optional,
    put_some, valid_option, with_some, written,
};
use crate::error::{Error, ErrorView};
use crate::json::{Json, Members, lemma_lookup_empty, lookup};
use crate::segment::{Segment, SegmentView};
use crate::value::value_from_map;

verus! {

/// Data (OpenRTB 2.5, section 3.2.21).
///
/// The data and segment objects together allow additional data about the related object (e.g.,
/// user, content) to be specified. This data may be from multiple sources whether from the
/// exchange itself or third parties as specified by the id field. A bid request can mix data
/// objects from multiple providers. The specific data providers in use should be published by
/// the exchange a priori to its bidders.
#[derive(Clone, Debug, PartialEq)]
pub struct Data {
    /// Exchange-specific ID for the data provider.
    pub id: Option<String>,
    /// Exchange-specific name for the data provider.
    pub name: Option<String>,
    /// Array of Segment (Section 3.2.22) objects that contain the actual data values.
    pub segment: Option<Vec<Segment>>,
    /// Placeholder for exchange-specific extensions to OpenRTB.
    pub ext: Option<serde_json::Map<String, Value>>,
}

/// The model of a [`Data`]: the same fields, as plain values.
pub struct DataView {
    pub id: Option<Seq<char>>,
    pub name: Option<Seq<char>>,
    pub segment: Option<Seq<SegmentView>>,
    pub ext: Option<Members>,
}

impl DataView {
    /// The value that [`Data::default`] stands for.
    pub open spec fn default() -> DataView {
        DataView {
            id: None,
            name: None,
            segment: None,
            ext: None,
        }
    }

    /// Whether encoding this value and decoding it again yields it: each part of it is
    /// valid.
    pub open spec fn valid(self) -> bool {
        &&& valid_option::<Vec<Segment>>(self.segment)
    }

    /// Whether no deprecated field is set in this value, at any depth.
    pub open spec fn current(self) -> bool {
        &&& current_option::<Vec<Segment>>(self.segment)
    }

    /// The members that this value is encoded to, in order.
    pub open spec fn members(self) -> Members {
        let m = Seq::<(Seq<char>, Json)>::empty();
        let m = with_some::<String>(m, "id"@, self.id);
        let m = with_some::<String>(m, "name"@, self.name);
        let m = with_some::<Vec<Segment>>(m, "segment"@, self.segment);
        let m = with_some::<serde_json::Map<String, Value>>(m, "ext"@, self.ext);
        m
    }

    /// What decoding an object of these members yields: the value, or the error of the
    /// first field, in the order of the fields, whose member is not accepted.
    pub open spec fn of_members(members: Members) -> Result<DataView, ErrorView> {
        let id = optional::<String>(members, "id"@);
        let name = optional::<String>(members, "name"@);
        let segment = optional::<Vec<Segment>>(members, "segment"@);
        let ext = optional::<serde_json::Map<String, Value>>(members, "ext"@);
        if id is Err {
            Err(id->Err_0)
        } else if name is Err {
            Err(name->Err_0)
        } else if segment is Err {
            Err(segment->Err_0)
        } else if ext is Err {
            Err(ext->Err_0)
        } else {
            Ok(DataView {
                id: id->Ok_0,
                name: name->Ok_0,
                segment: segment->Ok_0,
                ext: ext->Ok_0,
            })
        }
    }
}

impl Default for Data {
    /// The value whose optional fields are absent and whose other fields have their
    /// defaults.
    fn default() -> (r: Data)
        ensures
            r.model() == DataView::default(),
    {
        Data {
            id: None,
            name: None,
            segment: None,
            ext: None,
        }
    }
}

/// The lengths of the keys, and the letters that tell keys of one length apart: no two
/// keys are the same.
proof fn lemma_keys()
    ensures
        "id"@.len() == 2,
        "name"@.len() == 4,
        "segment"@.len() == 7,
        "ext"@.len() == 3,
{
    reveal_strlit("id");
    reveal_strlit("name");
    reveal_strlit("segment");
    reveal_strlit("ext");
}

/// What is found under each key among the members that a value is encoded to.
proof fn lemma_members(m: DataView)
    ensures
        lookup(m.members(), "id"@) == written::<String>(m.id),
        lookup(m.members(), "name"@) == written::<String>(m.name),
        lookup(m.members(), "segment"@) == written::<Vec<Segment>>(m.segment),
        lookup(m.members(), "ext"@) == written::<serde_json::Map<String, Value>>(m.ext),
{
    broadcast use {lemma_lookup_with, lemma_lookup_with_some, lemma_lookup_with_unless};
    lemma_keys();
    assert forall|key: Seq<char>| lookup(Seq::empty(), key) is None by {
        lemma_lookup_empty(key);
    }
}

impl Codec for Data {
    type Model = DataView;

    open spec fn model(&self) -> DataView {
        DataView {
            id: model_of_option::<String>(self.id),
            name: model_of_option::<String>(self.name),
            segment: model_of_option::<Vec<Segment>>(self.segment),
            ext: model_of_option::<serde_json::Map<String, Value>>(self.ext),
        }
    }

    open spec fn valid(m: DataView) -> bool {
        m.valid()
    }

    open spec fn current(m: DataView) -> bool {
        m.current()
    }

    open spec fn encoded(m: DataView) -> Json {
        Json::Object(m.members())
    }

    open spec fn decoded(json: Json) -> Result<DataView, ErrorView> {
        match json {
            Json::Object(members) => DataView::of_members(members),
            _ => Err(ErrorView::shape(json, "an object"@)),
        }
    }

    fn to_value(&self) -> (value: Value) {
        let mut map = serde_json::Map::new();
        put_some::<String>(&mut map, "id", &self.id);
        put_some::<String>(&mut map, "name", &self.name);
        put_some::<Vec<Segment>>(&mut map, "segment", &self.segment);
        put_some::<serde_json::Map<String, Value>>(&mut map, "ext", &self.ext);
        value_from_map(map)
    }

    fn from_value(value: &Value) -> (r: Result<Data, Error>) {
        match value.as_object() {
            None => Err(Error::shape(value, "an object")),
            Some(map) => {
                let id = get_option::<String>(map, "id")?;
                let name = get_option::<String>(map, "name")?;
                let segment = get_option::<Vec<Segment>>(map, "segment")?;
                let ext = get_option::<serde_json::Map<String, Value>>(map, "ext")?;
                Ok(Data { id, name, segment, ext })
            },
        }
    }

    proof fn round_trip(m: DataView) {
        lemma_members(m);
        let members = m.members();
        lemma_optional::<String>(members, "id"@, m.id);
        lemma_optional::<String>(members, "name"@, m.name);
        lemma_optional::<Vec<Segment>>(members, "segment"@, m.segment);
        lemma_optional::<serde_json::Map<String, Value>>(members, "ext"@, m.ext);
    }

    proof fn decoded_valid(json: Json) {
        if let Json::Object(members) = json {
            lemma_optional_valid::<Vec<Segment>>(members, "segment"@);
        }
    }
}

/// A default value is encoded to the least document: its required members, and no other.
pub proof fn default_is_minimal()
    ensures
        Data::encoded(DataView::default()) == Json::Object(Seq::empty()),
{
    reveal(with_some);
    let d = DataView::default();
    assert(d.members() =~= Seq::empty());
}

} // verus!
