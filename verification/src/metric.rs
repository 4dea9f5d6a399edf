//! The Metric object (OpenRTB 2.5, section 3.2.5).

use vstd::prelude::*;
use serde_json::{Number, Value};
use crate::codec::{
    Codec, get, get_option, lemma_lookup_with, lemma_lookup_with_some, lemma_lookup_with_unless,
    lemma_optional, lemma_required, model_of_option, optional, put, put_some, required, with,
    with_some, written,
};
use crate::error::{Error, ErrorView};
use crate::json::{Json, Members, Num, lemma_insert_fresh, lemma_lookup_empty, lookup};
use crate::value::{number_zero, value_from_map};

verus! {

/// Metric (OpenRTB 2.5, section 3.2.5).
///
/// This object is associated with an impression as an array of metrics. These metrics can offer
/// insight into the impression to assist with decisioning such as average recent viewability,
/// click-through rate, etc. Each metric is identified by its type, reports the value of the
/// metric, and optionally identifies the source or vendor measuring the value.
#[derive(Clone, Debug, PartialEq)]
pub struct Metric {
    /// Type of metric being presented using exchange curated string names which should be
    /// published to bidders a priori. Required.
    pub type_: String,
    /// Number representing the value of the metric. Probabilities must be in the range 0.0 -
    /// 1.0. Required.
    pub value: Number,
    /// Source of the value using exchange curated string names which should be published to
    /// bidders a priori. If the exchange itself is the source versus a third party, "EXCHANGE"
    /// is recommended.
    pub vendor: Option<String>,
    /// Placeholder for exchange-specific extensions to OpenRTB.
    pub ext: Option<serde_json::Map<String, Value>>,
}

/// The model of a [`Metric`]: the same fields, as plain values.
pub struct MetricView {
    pub type_: Seq<char>,
    pub value: Num,
    pub vendor: Option<Seq<char>>,
    pub ext: Option<Members>,
}

impl MetricView {
    /// The value that [`Metric::default`] stands for.
    pub open spec fn default() -> MetricView {
        MetricView {
            type_: Seq::<char>::empty(),
            value: Num::Real(0),
            vendor: None,
            ext: None,
        }
    }

    /// Whether encoding this value and decoding it again yields it: each part of it is
    /// valid.
    pub open spec fn valid(self) -> bool {
        true
    }

    /// Whether no deprecated field is set in this value, at any depth.
    pub open spec fn current(self) -> bool {
        true
    }

    /// The members that this value is encoded to, in order.
    pub open spec fn members(self) -> Members {
        let m = Seq::<(Seq<char>, Json)>::empty();
        let m = with::<String>(m, "type"@, self.type_);
        let m = with::<Number>(m, "value"@, self.value);
        let m = with_some::<String>(m, "vendor"@, self.vendor);
        let m = with_some::<serde_json::Map<String, Value>>(m, "ext"@, self.ext);
        m
    }

    /// What decoding an object of these members yields: the value, or the error of the
    /// first field, in the order of the fields, whose member is not accepted.
    pub open spec fn of_members(members: Members) -> Result<MetricView, ErrorView> {
        let type_ = required::<String>(members, "type"@);
        let value = required::<Number>(members, "value"@);
        let vendor = optional::<String>(members, "vendor"@);
        let ext = optional::<serde_json::Map<String, Value>>(members, "ext"@);
        if type_ is Err {
            Err(type_->Err_0)
        } else if value is Err {
            Err(value->Err_0)
        } else if vendor is Err {
            Err(vendor->Err_0)
        } else if ext is Err {
            Err(ext->Err_0)
        } else {
            Ok(MetricView {
                type_: type_->Ok_0,
                value: value->Ok_0,
                vendor: vendor->Ok_0,
                ext: ext->Ok_0,
            })
        }
    }
}

impl Default for Metric {
    /// The value whose optional fields are absent and whose other fields have their
    /// defaults.
    fn default() -> (r: Metric)
        ensures
            r.model() == MetricView::default(),
    {
        Metric {
            type_: String::new(),
            value: number_zero(),
            vendor: None,
            ext: None,
        }
    }
}

/// The lengths of the keys, and the letters that tell keys of one length apart: no two
/// keys are the same.
proof fn lemma_keys()
    ensures
        "type"@.len() == 4,
        "value"@.len() == 5,
        "vendor"@.len() == 6,
        "ext"@.len() == 3,
{
    reveal_strlit("type");
    reveal_strlit("value");
    reveal_strlit("vendor");
    reveal_strlit("ext");
}

/// What is found under each key among the members that a value is encoded to.
proof fn lemma_members(m: MetricView)
    ensures
        lookup(m.members(), "type"@) == Some(<String as Codec>::encoded(m.type_)),
        lookup(m.members(), "value"@) == Some(<Number as Codec>::encoded(m.value)),
        lookup(m.members(), "vendor"@) == written::<String>(m.vendor),
        lookup(m.members(), "ext"@) == written::<serde_json::Map<String, Value>>(m.ext),
{
    broadcast use {lemma_lookup_with, lemma_lookup_with_some, lemma_lookup_with_unless};
    lemma_keys();
    assert forall|key: Seq<char>| lookup(Seq::empty(), key) is None by {
        lemma_lookup_empty(key);
    }
}

impl Codec for Metric {
    type Model = MetricView;

    open spec fn model(&self) -> MetricView {
        MetricView {
            type_: self.type_.model(),
            value: self.value.model(),
            vendor: model_of_option::<String>(self.vendor),
            ext: model_of_option::<serde_json::Map<String, Value>>(self.ext),
        }
    }

    open spec fn valid(m: MetricView) -> bool {
        m.valid()
    }

    open spec fn current(m: MetricView) -> bool {
        m.current()
    }

    open spec fn encoded(m: MetricView) -> Json {
        Json::Object(m.members())
    }

    open spec fn decoded(json: Json) -> Result<MetricView, ErrorView> {
        match json {
            Json::Object(members) => MetricView::of_members(members),
            _ => Err(ErrorView::shape(json, "an object"@)),
        }
    }

    fn to_value(&self) -> (value: Value) {
        let mut map = serde_json::Map::new();
        put::<String>(&mut map, "type", &self.type_);
        put::<Number>(&mut map, "value", &self.value);
        put_some::<String>(&mut map, "vendor", &self.vendor);
        put_some::<serde_json::Map<String, Value>>(&mut map, "ext", &self.ext);
        value_from_map(map)
    }

    fn from_value(value: &Value) -> (r: Result<Metric, Error>) {
        match value.as_object() {
            None => Err(Error::shape(value, "an object")),
            Some(map) => {
                let type_ = get::<String>(map, "type")?;
                let value = get::<Number>(map, "value")?;
                let vendor = get_option::<String>(map, "vendor")?;
                let ext = get_option::<serde_json::Map<String, Value>>(map, "ext")?;
                Ok(Metric { type_, value, vendor, ext })
            },
        }
    }

    proof fn round_trip(m: MetricView) {
        lemma_members(m);
        let members = m.members();
        lemma_required::<String>(members, "type"@, m.type_);
        lemma_required::<Number>(members, "value"@, m.value);
        lemma_optional::<String>(members, "vendor"@, m.vendor);
        lemma_optional::<serde_json::Map<String, Value>>(members, "ext"@, m.ext);
    }

    proof fn decoded_valid(json: Json) {
        if let Json::Object(members) = json {
        }
    }
}

/// A default value is encoded to the least document: its required members, and no other.
pub proof fn default_is_minimal()
    ensures
        Metric::encoded(MetricView::default()) == Json::Object(
            seq![
                ("type"@, Json::Text(Seq::empty())),
                ("value"@, Json::Number(Num::Real(0))),
            ],
        ),
{
    reveal(with);
    reveal(with_some);
    lemma_keys();
    let d = MetricView::default();
    let m = Seq::<(Seq<char>, Json)>::empty();
    lemma_insert_fresh(m, "type"@, <String as Codec>::encoded(d.type_));
    let m = m.push(("type"@, <String as Codec>::encoded(d.type_)));
    lemma_insert_fresh(m, "value"@, <Number as Codec>::encoded(d.value));
    let m = m.push(("value"@, <Number as Codec>::encoded(d.value)));
    assert(d.members() == m);
    assert(m =~= seq![
        ("type"@, Json::Text(Seq::empty())),
        ("value"@, Json::Number(Num::Real(0))),
    ]);
}

} // verus!
