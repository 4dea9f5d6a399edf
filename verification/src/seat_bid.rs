//! The SeatBid object (OpenRTB 2.5, section 4.2.2).

use vstd::prelude::*;
use serde_json::Value;
use crate::bid::{Bid, BidView};
use crate::codec::{
    Codec, defaulted, encoded_items, get, get_option, get_or, lemma_defaulted, lemma_lookup_with,
    lemma_lookup_with_some, lemma_lookup_with_unless, lemma_optional, lemma_required,
    lemma_required_valid, model_of_option, optional, put, put_some, put_unless, required, with,
    with_some, with_unless, written, written_unless,
};
use crate::error::{Error, ErrorView};
use crate::json::{Json, Members, lemma_insert_fresh, lemma_lookup_empty, lookup};
use crate::value::value_from_map;

verus! {

/// SeatBid (OpenRTB 2.5, section 4.2.2).
///
/// A bid response can contain multiple SeatBid objects, each on behalf of a different bidder
/// seat and each containing one or more individual bids. If multiple impressions are presented
/// in the request, the group attribute can be used to specify if a seat is willing to accept
/// any impressions that it can win (default) or if it is only interested in winning any if it
/// can win them all as a group.
#[derive(Clone, Debug, PartialEq)]
pub struct SeatBid {
    /// Array of 1+ Bid objects (Section 4.2.3) each related to an impression. Multiple bids can
    /// relate to the same impression. Required.
    pub bid: Vec<Bid>,
    /// ID of the buyer seat (e.g., advertiser, agency) on whose behalf this bid is made.
    pub seat: Option<String>,
    /// 0 = impressions can be won individually; 1 = impressions must be won or lost as a group.
    /// Left out of the document when it has its default, 0.
    pub group: bool,
    /// Placeholder for bidder-specific extensions to OpenRTB.
    pub ext: Option<serde_json::Map<String, Value>>,
}

/// The model of a [`SeatBid`]: the same fields, as plain values.
pub struct SeatBidView {
    pub bid: Seq<BidView>,
    pub seat: Option<Seq<char>>,
    pub group: bool,
    pub ext: Option<Members>,
}

impl SeatBidView {
    /// The value that [`SeatBid::default`] stands for.
    pub open spec fn default() -> SeatBidView {
        SeatBidView {
            bid: Seq::<BidView>::empty(),
            seat: None,
            group: false,
            ext: None,
        }
    }

    /// Whether encoding this value and decoding it again yields it: each part of it is
    /// valid.
    pub open spec fn valid(self) -> bool {
        &&& <Vec<Bid> as Codec>::valid(self.bid)
    }

    /// Whether no deprecated field is set in this value, at any depth.
    pub open spec fn current(self) -> bool {
        &&& <Vec<Bid> as Codec>::current(self.bid)
    }

    /// The members that this value is encoded to, in order.
    pub open spec fn members(self) -> Members {
        let m = Seq::<(Seq<char>, Json)>::empty();
        let m = with::<Vec<Bid>>(m, "bid"@, self.bid);
        let m = with_some::<String>(m, "seat"@, self.seat);
        let m = with_unless::<bool>(m, "group"@, self.group, !self.group);
        let m = with_some::<serde_json::Map<String, Value>>(m, "ext"@, self.ext);
        m
    }

    /// What decoding an object of these members yields: the value, or the error of the
    /// first field, in the order of the fields, whose member is not accepted.
    pub open spec fn of_members(members: Members) -> Result<SeatBidView, ErrorView> {
        let bid = required::<Vec<Bid>>(members, "bid"@);
        let seat = optional::<String>(members, "seat"@);
        let group = defaulted::<bool>(members, "group"@, false);
        let ext = optional::<serde_json::Map<String, Value>>(members, "ext"@);
        if bid is Err {
            Err(bid->Err_0)
        } else if seat is Err {
            Err(seat->Err_0)
        } else if group is Err {
            Err(group->Err_0)
        } else if ext is Err {
            Err(ext->Err_0)
        } else {
            Ok(SeatBidView {
                bid: bid->Ok_0,
                seat: seat->Ok_0,
                group: group->Ok_0,
                ext: ext->Ok_0,
            })
        }
    }
}

impl Default for SeatBid {
    /// The value whose optional fields are absent and whose other fields have their
    /// defaults.
    fn default() -> (r: SeatBid)
        ensures
            r.model() == SeatBidView::default(),
    {
        let r = SeatBid {
            bid: Vec::new(),
            seat: None,
            group: false,
            ext: None,
        };
        assert(r.bid.model() =~= Seq::empty());
        r
    }
}

/// The lengths of the keys, and the letters that tell keys of one length apart: no two
/// keys are the same.
proof fn lemma_keys()
    ensures
        "bid"@.len() == 3 && "bid"@[0] == 'b',
        "seat"@.len() == 4,
        "group"@.len() == 5,
        "ext"@.len() == 3 && "ext"@[0] == 'e',
{
    reveal_strlit("bid");
    reveal_strlit("seat");
    reveal_strlit("group");
    reveal_strlit("ext");
}

/// What is found under each key among the members that a value is encoded to.
proof fn lemma_members(m: SeatBidView)
    ensures
        lookup(m.members(), "bid"@) == Some(<Vec<Bid> as Codec>::encoded(m.bid)),
        lookup(m.members(), "seat"@) == written::<String>(m.seat),
        lookup(m.members(), "group"@) == written_unless::<bool>(m.group, !m.group),
        lookup(m.members(), "ext"@) == written::<serde_json::Map<String, Value>>(m.ext),
{
    broadcast use {lemma_lookup_with, lemma_lookup_with_some, lemma_lookup_with_unless};
    lemma_keys();
    assert forall|key: Seq<char>| lookup(Seq::empty(), key) is None by {
        lemma_lookup_empty(key);
    }
}

impl Codec for SeatBid {
    type Model = SeatBidView;

    open spec fn model(&self) -> SeatBidView {
        SeatBidView {
            bid: self.bid.model(),
            seat: model_of_option::<String>(self.seat),
            group: self.group.model(),
            ext: model_of_option::<serde_json::Map<String, Value>>(self.ext),
        }
    }

    open spec fn valid(m: SeatBidView) -> bool {
        m.valid()
    }

    open spec fn current(m: SeatBidView) -> bool {
        m.current()
    }

    open spec fn encoded(m: SeatBidView) -> Json {
        Json::Object(m.members())
    }

    open spec fn decoded(json: Json) -> Result<SeatBidView, ErrorView> {
        match json {
            Json::Object(members) => SeatBidView::of_members(members),
            _ => Err(ErrorView::shape(json, "an object"@)),
        }
    }

    fn to_value(&self) -> (value: Value) {
        let mut map = serde_json::Map::new();
        put::<Vec<Bid>>(&mut map, "bid", &self.bid);
        put_some::<String>(&mut map, "seat", &self.seat);
        put_unless::<bool>(&mut map, "group", &self.group, !self.group);
        put_some::<serde_json::Map<String, Value>>(&mut map, "ext", &self.ext);
        value_from_map(map)
    }

    fn from_value(value: &Value) -> (r: Result<SeatBid, Error>) {
        match value.as_object() {
            None => Err(Error::shape(value, "an object")),
            Some(map) => {
                let bid = get::<Vec<Bid>>(map, "bid")?;
                let seat = get_option::<String>(map, "seat")?;
                let group = get_or::<bool>(map, "group", false)?;
                let ext = get_option::<serde_json::Map<String, Value>>(map, "ext")?;
                Ok(SeatBid { bid, seat, group, ext })
            },
        }
    }

    proof fn round_trip(m: SeatBidView) {
        lemma_members(m);
        let members = m.members();
        lemma_required::<Vec<Bid>>(members, "bid"@, m.bid);
        lemma_optional::<String>(members, "seat"@, m.seat);
        lemma_defaulted::<bool>(members, "group"@, m.group, false);
        lemma_optional::<serde_json::Map<String, Value>>(members, "ext"@, m.ext);
    }

    proof fn decoded_valid(json: Json) {
        if let Json::Object(members) = json {
            lemma_required_valid::<Vec<Bid>>(members, "bid"@);
        }
    }
}

/// A default value is encoded to the least document: its required members, and no other.
pub proof fn default_is_minimal()
    ensures
        SeatBid::encoded(SeatBidView::default()) == Json::Object(
            seq![
                ("bid"@, Json::Array(Seq::empty())),
            ],
        ),
{
    reveal(with);
    reveal(with_some);
    reveal(with_unless);
    let d = SeatBidView::default();
    let m = Seq::<(Seq<char>, Json)>::empty();
    assert(encoded_items::<Bid>(d.bid) =~= Seq::empty());
    lemma_insert_fresh(m, "bid"@, <Vec<Bid> as Codec>::encoded(d.bid));
    let m = m.push(("bid"@, <Vec<Bid> as Codec>::encoded(d.bid)));
    assert(d.members() == m);
    assert(m =~= seq![
        ("bid"@, Json::Array(Seq::empty())),
    ]);
}

} // verus!
