//! The Pmp object (OpenRTB 2.5, section 3.2.11).

use vstd::prelude::*;
use serde_json::Value;
use crate::codec::{
    Codec, current_option, defaulted, get_option, get_or, lemma_defaulted, lemma_lookup_with,
    lemma_lookup_with_some, lemma_lookup_with_unless, lemma_optional, lemma_optional_valid,
    model_of_option, optional, put_some, put_unless, valid_option, with_some, with_unless,
    written, written_unless,
};
use crate::deal::{Deal, DealView};
use crate::error::{Error, ErrorView};
use crate::json::{Json, Members, lemma_lookup_empty, lookup};
use crate::value::value_from_map;

verus! {

/// Pmp (OpenRTB 2.5, section 3.2.11).
///
/// This object is the private marketplace container for direct deals between buyers and sellers
/// that may pertain to this impression. The actual deals are represented as a collection of
/// Deal objects. Refer to Section 7.3 for more details.
#[derive(Clone, Debug, PartialEq)]
pub struct Pmp {
    /// Indicator of auction eligibility to seats named in the Direct Deals object, where 0 =
    /// all bids are accepted, 1 = bids are restricted to the deals specified and the terms
    /// thereof. Left out of the document when it has its default, 0.
    pub private_auction: bool,
    /// Array of Deal (Section 3.2.12) objects that convey the specific deals applicable to this
    /// impression.
    pub deals: Option<Vec<Deal>>,
    /// Placeholder for exchange-specific extensions to OpenRTB.
    pub ext: Option<serde_json::Map<String, Value>>,
}

/// The model of a [`Pmp`]: the same fields, as plain values.
pub struct PmpView {
    pub private_auction: bool,
    pub deals: Option<Seq<DealView>>,
    pub ext: Option<Members>,
}

impl PmpView {
    /// The value that [`Pmp::default`] stands for.
    pub open spec fn default() -> PmpView {
        PmpView {
            private_auction: false,
            deals: None,
            ext: None,
        }
    }

    /// Whether encoding this value and decoding it again yields it: each part of it is
    /// valid.
    pub open spec fn valid(self) -> bool {
        &&& valid_option::<Vec<Deal>>(self.deals)
    }

    /// Whether no deprecated field is set in this value, at any depth.
    pub open spec fn current(self) -> bool {
        &&& current_option::<Vec<Deal>>(self.deals)
    }

    /// The members that this value is encoded to, in order.
    pub open spec fn members(self) -> Members {
        let m = Seq::<(Seq<char>, Json)>::empty();
        let m = with_unless::<bool>(
            m,
            "private_auction"@,
            self.private_auction,
            !self.private_auction,
        );
        let m = with_some::<Vec<Deal>>(m, "deals"@, self.deals);
        let m = with_some::<serde_json::Map<String, Value>>(m, "ext"@, self.ext);
        m
    }

    /// What decoding an object of these members yields: the value, or the error of the
    /// first field, in the order of the fields, whose member is not accepted.
    pub open spec fn of_members(members: Members) -> Result<PmpView, ErrorView> {
        let private_auction = defaulted::<bool>(members, "private_auction"@, false);
        let deals = optional::<Vec<Deal>>(members, "deals"@);
        let ext = optional::<serde_json::Map<String, Value>>(members, "ext"@);
        if private_auction is Err {
            Err(private_auction->Err_0)
        } else if deals is Err {
            Err(deals->Err_0)
        } else if ext is Err {
            Err(ext->Err_0)
        } else {
            Ok(PmpView {
                private_auction: private_auction->Ok_0,
                deals: deals->Ok_0,
                ext: ext->Ok_0,
            })
        }
    }
}

impl Default for Pmp {
    /// The value whose optional fields are absent and whose other fields have their
    /// defaults.
    fn default() -> (r: Pmp)
        ensures
            r.model() == PmpView::default(),
    {
        Pmp {
            private_auction: false,
            deals: None,
            ext: None,
        }
    }
}

/// The lengths of the keys, and the letters that tell keys of one length apart: no two
/// keys are the same.
proof fn lemma_keys()
    ensures
        "private_auction"@.len() == 15,
        "deals"@.len() == 5,
        "ext"@.len() == 3,
{
    reveal_strlit("private_auction");
    reveal_strlit("deals");
    reveal_strlit("ext");
}

/// What is found under each key among the members that a value is encoded to.
proof fn lemma_members(m: PmpView)
    ensures
        lookup(m.members(), "private_auction"@) == written_unless::<bool>(
            m.private_auction,
            !m.private_auction,
        ),
        lookup(m.members(), "deals"@) == written::<Vec<Deal>>(m.deals),
        lookup(m.members(), "ext"@) == written::<serde_json::Map<String, Value>>(m.ext),
{
    broadcast use {lemma_lookup_with, lemma_lookup_with_some, lemma_lookup_with_unless};
    lemma_keys();
    assert forall|key: Seq<char>| lookup(Seq::empty(), key) is None by {
        lemma_lookup_empty(key);
    }
}

impl Codec for Pmp {
    type Model = PmpView;

    open spec fn model(&self) -> PmpView {
        PmpView {
            private_auction: self.private_auction.model(),
            deals: model_of_option::<Vec<Deal>>(self.deals),
            ext: model_of_option::<serde_json::Map<String, Value>>(self.ext),
        }
    }

    open spec fn valid(m: PmpView) -> bool {
        m.valid()
    }

    open spec fn current(m: PmpView) -> bool {
        m.current()
    }

    open spec fn encoded(m: PmpView) -> Json {
        Json::Object(m.members())
    }

    open spec fn decoded(json: Json) -> Result<PmpView, ErrorView> {
        match json {
            Json::Object(members) => PmpView::of_members(members),
            _ => Err(ErrorView::shape(json, "an object"@)),
        }
    }

    fn to_value(&self) -> (value: Value) {
        let mut map = serde_json::Map::new();
        put_unless::<bool>(
            &mut map,
            "private_auction",
            &self.private_auction,
            !self.private_auction,
        );
        put_some::<Vec<Deal>>(&mut map, "deals", &self.deals);
        put_some::<serde_json::Map<String, Value>>(&mut map, "ext", &self.ext);
        value_from_map(map)
    }

    fn from_value(value: &Value) -> (r: Result<Pmp, Error>) {
        match value.as_object() {
            None => Err(Error::shape(value, "an object")),
            Some(map) => {
                let private_auction = get_or::<bool>(map, "private_auction", false)?;
                let deals = get_option::<Vec<Deal>>(map, "deals")?;
                let ext = get_option::<serde_json::Map<String, Value>>(map, "ext")?;
                Ok(Pmp { private_auction, deals, ext })
            },
        }
    }

    proof fn round_trip(m: PmpView) {
        lemma_members(m);
        let members = m.members();
        lemma_defaulted::<bool>(members, "private_auction"@, m.private_auction, false);
        lemma_optional::<Vec<Deal>>(members, "deals"@, m.deals);
        lemma_optional::<serde_json::Map<String, Value>>(members, "ext"@, m.ext);
    }

    proof fn decoded_valid(json: Json) {
        if let Json::Object(members) = json {
            lemma_optional_valid::<Vec<Deal>>(members, "deals"@);
        }
    }
}

/// A default value is encoded to the least document: its required members, and no other.
pub proof fn default_is_minimal()
    ensures
        Pmp::encoded(PmpView::default()) == Json::Object(Seq::empty()),
{
    reveal(with_some);
    reveal(with_unless);
    let d = PmpView::default();
    assert(d.members() =~= Seq::empty());
}

} // verus!
