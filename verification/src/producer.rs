//! The Producer object (OpenRTB 2.5, section 3.2.17).

use vstd::prelude::*;
use serde_json::Value;
use crate::codec::{
    Codec, get_option, lemma_lookup_with, lemma_lookup_with_some, lemma_lookup_with_unless,
    lemma_optional, model_of_option, optional, put_some, with_some, written,
};
use crate::content_category::ContentCategory;
use crate::error::{Error, ErrorView};
use crate::json::{Json, Members, lemma_lookup_empty, lookup};
use crate::value::value_from_map;

verus! {

/// Producer (OpenRTB 2.5, section 3.2.17).
///
/// This object defines the producer of the content in which the ad will be shown. This is
/// particularly useful when the content is syndicated and may be distributed through different
/// publishers and thus when the producer and publisher are not necessarily the same entity.
#[derive(Clone, Debug, PartialEq)]
pub struct Producer {
    /// Content producer or originator ID. Useful if content is syndicated and may be posted on
    /// a site using embed tags.
    pub id: Option<String>,
    /// Content producer or originator name (e.g., "Warner Bros").
    pub name: Option<String>,
    /// Array of IAB content categories that describe the content producer. Refer to List 5.1.
    pub cat: Option<Vec<ContentCategory>>,
    /// Highest level domain of the content producer (e.g., "producer.com").
    pub domain: Option<String>,
    /// Placeholder for exchange-specific extensions to OpenRTB.
    pub ext: Option<serde_json::Map<String, Value>>,
}

/// The model of a [`Producer`]: the same fields, as plain values.
pub struct ProducerView {
    pub id: Option<Seq<char>>,
    pub name: Option<Seq<char>>,
    pub cat: Option<Seq<ContentCategory>>,
    pub domain: Option<Seq<char>>,
    pub ext: Option<Members>,
}

impl ProducerView {
    /// The value that [`Producer::default`] stands for.
    pub open spec fn default() -> ProducerView {
        ProducerView {
            id: None,
            name: None,
            cat: None,
            domain: None,
            ext: None,
        }
    }

    /// Whether encoding this value and decoding it again yields it: each part of it is
    /// valid.
    pub open spec fn valid(self) -> bool {
        true
    }

    /// Whether no deprecated field is set in this value, at any depth.
    pub open spec fn current(self) -> bool {
        true
    }

    /// The members that this value is encoded to, in order.
    pub open spec fn members(self) -> Members {
        let m = Seq::<(Seq<char>, Json)>::empty();
        let m = with_some::<String>(m, "id"@, self.id);
        let m = with_some::<String>(m, "name"@, self.name);
        let m = with_some::<Vec<ContentCategory>>(m, "cat"@, self.cat);
        let m = with_some::<String>(m, "domain"@, self.domain);
        let m = with_some::<serde_json::Map<String, Value>>(m, "ext"@, self.ext);
        m
    }

    /// What decoding an object of these members yields: the value, or the error of the
    /// first field, in the order of the fields, whose member is not accepted.
    pub open spec fn of_members(members: Members) -> Result<ProducerView, ErrorView> {
        let id = optional::<String>(members, "id"@);
        let name = optional::<String>(members, "name"@);
        let cat = optional::<Vec<ContentCategory>>(members, "cat"@);
        let domain = optional::<String>(members, "domain"@);
        let ext = optional::<serde_json::Map<String, Value>>(members, "ext"@);
        if id is Err {
            Err(id->Err_0)
        } else if name is Err {
            Err(name->Err_0)
        } else if cat is Err {
            Err(cat->Err_0)
        } else if domain is Err {
            Err(domain->Err_0)
        } else if ext is Err {
            Err(ext->Err_0)
        } else {
            Ok(ProducerView {
                id: id->Ok_0,
                name: name->Ok_0,
                cat: cat->Ok_0,
                domain: domain->Ok_0,
                ext: ext->Ok_0,
            })
        }
    }
}

impl Default for Producer {
    /// The value whose optional fields are absent and whose other fields have their
    /// defaults.
    fn default() -> (r: Producer)
        ensures
            r.model() == ProducerView::default(),
    {
        Producer {
            id: None,
            name: None,
            cat: None,
            domain: None,
            ext: None,
        }
    }
}

/// The lengths of the keys, and the letters that tell keys of one length apart: no two
/// keys are the same.
proof fn lemma_keys()
    ensures
        "id"@.len() == 2,
        "name"@.len() == 4,
        "cat"@.len() == 3 && "cat"@[0] == 'c',
        "domain"@.len() == 6,
        "ext"@.len() == 3 && "ext"@[0] == 'e',
{
    reveal_strlit("id");
    reveal_strlit("name");
    reveal_strlit("cat");
    reveal_strlit("domain");
    reveal_strlit("ext");
}

/// What is found under each key among the members that a value is encoded to.
proof fn lemma_members(m: ProducerView)
    ensures
        lookup(m.members(), "id"@) == written::<String>(m.id),
        lookup(m.members(), "name"@) == written::<String>(m.name),
        lookup(m.members(), "cat"@) == written::<Vec<ContentCategory>>(m.cat),
        lookup(m.members(), "domain"@) == written::<String>(m.domain),
        lookup(m.members(), "ext"@) == written::<serde_json::Map<String, Value>>(m.ext),
{
    broadcast use {lemma_lookup_with, lemma_lookup_with_some, lemma_lookup_with_unless};
    lemma_keys();
    assert forall|key: Seq<char>| lookup(Seq::empty(), key) is None by {
        lemma_lookup_empty(key);
    }
}

impl Codec for Producer {
    type Model = ProducerView;

    open spec fn model(&self) -> ProducerView {
        ProducerView {
            id: model_of_option::<String>(self.id),
            name: model_of_option::<String>(self.name),
            cat: model_of_option::<Vec<ContentCategory>>(self.cat),
            domain: model_of_option::<String>(self.domain),
            ext: model_of_option::<serde_json::Map<String, Value>>(self.ext),
        }
    }

    open spec fn valid(m: ProducerView) -> bool {
        m.valid()
    }

    open spec fn current(m: ProducerView) -> bool {
        m.current()
    }

    open spec fn encoded(m: ProducerView) -> Json {
        Json::Object(m.members())
    }

    open spec fn decoded(json: Json) -> Result<ProducerView, ErrorView> {
        match json {
            Json::Object(members) => ProducerView::of_members(members),
            _ => Err(ErrorView::shape(json, "an object"@)),
        }
    }

    fn to_value(&self) -> (value: Value) {
        let mut map = serde_json::Map::new();
        put_some::<String>(&mut map, "id", &self.id);
        put_some::<String>(&mut map, "name", &self.name);
        put_some::<Vec<ContentCategory>>(&mut map, "cat", &self.cat);
        put_some::<String>(&mut map, "domain", &self.domain);
        put_some::<serde_json::Map<String, Value>>(&mut map, "ext", &self.ext);
        value_from_map(map)
    }

    fn from_value(value: &Value) -> (r: Result<Producer, Error>) {
        match value.as_object() {
            None => Err(Error::shape(value, "an object")),
            Some(map) => {
                let id = get_option::<String>(map, "id")?;
                let name = get_option::<String>(map, "name")?;
                let cat = get_option::<Vec<ContentCategory>>(map, "cat")?;
                let domain = get_option::<String>(map, "domain")?;
                let ext = get_option::<serde_json::Map<String, Value>>(map, "ext")?;
                Ok(Producer { id, name, cat, domain, ext })
            },
        }
    }

    proof fn round_trip(m: ProducerView) {
        lemma_members(m);
        let members = m.members();
        lemma_optional::<String>(members, "id"@, m.id);
        lemma_optional::<String>(members, "name"@, m.name);
        lemma_optional::<Vec<ContentCategory>>(members, "cat"@, m.cat);
        lemma_optional::<String>(members, "domain"@, m.domain);
        lemma_optional::<serde_json::Map<String, Value>>(members, "ext"@, m.ext);
    }

    proof fn decoded_valid(json: Json) {
        if let Json::Object(members) = json {
        }
    }
}

/// A default value is encoded to the least document: its required members, and no other.
pub proof fn default_is_minimal()
    ensures
        Producer::encoded(ProducerView::default()) == Json::Object(Seq::empty()),
{
    reveal(with_some);
    let d = ProducerView::default();
    assert(d.members() =~= Seq::empty());
}

} // verus!
