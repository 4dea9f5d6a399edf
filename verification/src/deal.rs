//! The Deal object (OpenRTB 2.5, section 3.2.12).

use vstd::prelude::*;
use serde_json::{Number, Value};
use crate::auction_type::AuctionType;
use crate::codec::{
    Codec, amount, defaulted, get, get_amount, get_option, get_or, lemma_amount, lemma_defaulted,
    lemma_defaulted_valid, lemma_lookup_with, lemma_lookup_with_some, lemma_lookup_with_unless,
    lemma_optional, lemma_required, model_of_option, optional, plain_amount, put, put_amount,
    put_some, put_unless, required, text_is, with, with_amount, with_some, with_unless, written,
    written_unless,
};
use crate::error::{Error, ErrorView};
use crate::json::{Json, Members, Num, lemma_insert_fresh, lemma_lookup_empty, lookup};
use crate::value::{number_zero, value_from_map};

verus! {

/// Deal (OpenRTB 2.5, section 3.2.12).
///
/// This object constitutes a specific deal that was struck a priori between a buyer and a
/// seller. Its presence with the Pmp collection indicates that this impression is available
/// under the terms of that deal. Refer to Section 7.3 for more details.
#[derive(Clone, Debug, PartialEq)]
pub struct Deal {
    /// A unique identifier for the direct deal. Required.
    pub id: String,
    /// Minimum bid for this impression expressed in CPM. Left out of the document when it has
    /// its default, 0.
    pub bidfloor: Number,
    /// Currency specified using ISO-4217 alpha codes. This may be different from bid currency
    /// returned by bidder if this is allowed by the exchange. Left out of the document when it
    /// has its default, "USD".
    pub bidfloorcur: String,
    /// Optional override of the overall auction type of the bid request.
    pub at: AuctionType,
    /// Whitelist of buyer seats (e.g., advertisers, agencies) allowed to bid on this deal. IDs
    /// of seats and the buyer's customers to which they refer must be coordinated between
    /// bidders and the exchange a priori. Omission implies no seat restrictions.
    pub wseat: Option<Vec<String>>,
    /// Array of advertiser domains (e.g., advertiser.com) allowed to bid on this deal. Omission
    /// implies no advertiser restrictions.
    pub wadomain: Option<Vec<String>>,
    /// Placeholder for exchange-specific extensions to OpenRTB.
    pub ext: Option<serde_json::Map<String, Value>>,
}

/// The model of a [`Deal`]: the same fields, as plain values.
pub struct DealView {
    pub id: Seq<char>,
    pub bidfloor: Num,
    pub bidfloorcur: Seq<char>,
    pub at: AuctionType,
    pub wseat: Option<Seq<Seq<char>>>,
    pub wadomain: Option<Seq<Seq<char>>>,
    pub ext: Option<Members>,
}

impl DealView {
    /// The value that [`Deal::default`] stands for.
    pub open spec fn default() -> DealView {
        DealView {
            id: Seq::<char>::empty(),
            bidfloor: Num::Real(0),
            bidfloorcur: "USD"@,
            at: AuctionType::SecondPricePlus,
            wseat: None,
            wadomain: None,
            ext: None,
        }
    }

    /// Whether encoding this value and decoding it again yields it: each part of it is
    /// valid.
    pub open spec fn valid(self) -> bool {
        &&& plain_amount(self.bidfloor)
        &&& <AuctionType as Codec>::valid(self.at)
    }

    /// Whether no deprecated field is set in this value, at any depth.
    pub open spec fn current(self) -> bool {
        true
    }

    /// The members that this value is encoded to, in order.
    pub open spec fn members(self) -> Members {
        let m = Seq::<(Seq<char>, Json)>::empty();
        let m = with::<String>(m, "id"@, self.id);
        let m = with_amount(m, "bidfloor"@, self.bidfloor);
        let m = with_unless::<String>(
            m,
            "bidfloorcur"@,
            self.bidfloorcur,
            self.bidfloorcur == "USD"@,
        );
        let m = with_unless::<AuctionType>(
            m,
            "at"@,
            self.at,
            self.at == AuctionType::SecondPricePlus,
        );
        let m = with_some::<Vec<String>>(m, "wseat"@, self.wseat);
        let m = with_some::<Vec<String>>(m, "wadomain"@, self.wadomain);
        let m = with_some::<serde_json::Map<String, Value>>(m, "ext"@, self.ext);
        m
    }

    /// What decoding an object of these members yields: the value, or the error of the
    /// first field, in the order of the fields, whose member is not accepted.
    pub open spec fn of_members(members: Members) -> Result<DealView, ErrorView> {
        let id = required::<String>(members, "id"@);
        let bidfloor = amount(members, "bidfloor"@);
        let bidfloorcur = defaulted::<String>(members, "bidfloorcur"@, "USD"@);
        let at = defaulted::<AuctionType>(members, "at"@, AuctionType::SecondPricePlus);
        let wseat = optional::<Vec<String>>(members, "wseat"@);
        let wadomain = optional::<Vec<String>>(members, "wadomain"@);
        let ext = optional::<serde_json::Map<String, Value>>(members, "ext"@);
        if id is Err {
            Err(id->Err_0)
        } else if bidfloor is Err {
            Err(bidfloor->Err_0)
        } else if bidfloorcur is Err {
            Err(bidfloorcur->Err_0)
        } else if at is Err {
            Err(at->Err_0)
        } else if wseat is Err {
            Err(wseat->Err_0)
        } else if wadomain is Err {
            Err(wadomain->Err_0)
        } else if ext is Err {
            Err(ext->Err_0)
        } else {
            Ok(DealView {
                id: id->Ok_0,
                bidfloor: bidfloor->Ok_0,
                bidfloorcur: bidfloorcur->Ok_0,
                at: at->Ok_0,
                wseat: wseat->Ok_0,
                wadomain: wadomain->Ok_0,
                ext: ext->Ok_0,
            })
        }
    }
}

impl Default for Deal {
    /// The value whose optional fields are absent and whose other fields have their
    /// defaults.
    fn default() -> (r: Deal)
        ensures
            r.model() == DealView::default(),
    {
        Deal {
            id: String::new(),
            bidfloor: number_zero(),
            bidfloorcur: "USD".to_owned(),
            at: AuctionType::SecondPricePlus,
            wseat: None,
            wadomain: None,
            ext: None,
        }
    }
}

/// The lengths of the keys, and the letters that tell keys of one length apart: no two
/// keys are the same.
proof fn lemma_keys()
    ensures
        "id"@.len() == 2 && "id"@[0] == 'i',
        "bidfloor"@.len() == 8 && "bidfloor"@[0] == 'b',
        "bidfloorcur"@.len() == 11,
        "at"@.len() == 2 && "at"@[0] == 'a',
        "wseat"@.len() == 5,
        "wadomain"@.len() == 8 && "wadomain"@[0] == 'w',
        "ext"@.len() == 3,
{
    reveal_strlit("id");
    reveal_strlit("bidfloor");
    reveal_strlit("bidfloorcur");
    reveal_strlit("at");
    reveal_strlit("wseat");
    reveal_strlit("wadomain");
    reveal_strlit("ext");
}

/// What is found under each key among the members that a value is encoded to.
proof fn lemma_members(m: DealView)
    ensures
        lookup(m.members(), "id"@) == Some(<String as Codec>::encoded(m.id)),
        lookup(m.members(), "bidfloor"@) == written_unless::<Number>(
            m.bidfloor,
            m.bidfloor.is_zero(),
        ),
        lookup(m.members(), "bidfloorcur"@) == written_unless::<String>(
            m.bidfloorcur,
            m.bidfloorcur == "USD"@,
        ),
        lookup(m.members(), "at"@) == written_unless::<AuctionType>(
            m.at,
            m.at == AuctionType::SecondPricePlus,
        ),
        lookup(m.members(), "wseat"@) == written::<Vec<String>>(m.wseat),
        lookup(m.members(), "wadomain"@) == written::<Vec<String>>(m.wadomain),
        lookup(m.members(), "ext"@) == written::<serde_json::Map<String, Value>>(m.ext),
{
    broadcast use {lemma_lookup_with, lemma_lookup_with_some, lemma_lookup_with_unless};
    lemma_keys();
    assert forall|key: Seq<char>| lookup(Seq::empty(), key) is None by {
        lemma_lookup_empty(key);
    }
}

impl Codec for Deal {
    type Model = DealView;

    open spec fn model(&self) -> DealView {
        DealView {
            id: self.id.model(),
            bidfloor: self.bidfloor.model(),
            bidfloorcur: self.bidfloorcur.model(),
            at: self.at.model(),
            wseat: model_of_option::<Vec<String>>(self.wseat),
            wadomain: model_of_option::<Vec<String>>(self.wadomain),
            ext: model_of_option::<serde_json::Map<String, Value>>(self.ext),
        }
    }

    open spec fn valid(m: DealView) -> bool {
        m.valid()
    }

    open spec fn current(m: DealView) -> bool {
        m.current()
    }

    open spec fn encoded(m: DealView) -> Json {
        Json::Object(m.members())
    }

    open spec fn decoded(json: Json) -> Result<DealView, ErrorView> {
        match json {
            Json::Object(members) => DealView::of_members(members),
            _ => Err(ErrorView::shape(json, "an object"@)),
        }
    }

    fn to_value(&self) -> (value: Value) {
        let mut map = serde_json::Map::new();
        put::<String>(&mut map, "id", &self.id);
        put_amount(&mut map, "bidfloor", &self.bidfloor);
        put_unless::<String>(
            &mut map,
            "bidfloorcur",
            &self.bidfloorcur,
            text_is(&self.bidfloorcur, "USD"),
        );
        put_unless::<AuctionType>(&mut map, "at", &self.at, self.at.is_default());
        put_some::<Vec<String>>(&mut map, "wseat", &self.wseat);
        put_some::<Vec<String>>(&mut map, "wadomain", &self.wadomain);
        put_some::<serde_json::Map<String, Value>>(&mut map, "ext", &self.ext);
        value_from_map(map)
    }

    fn from_value(value: &Value) -> (r: Result<Deal, Error>) {
        match value.as_object() {
            None => Err(Error::shape(value, "an object")),
            Some(map) => {
                let id = get::<String>(map, "id")?;
                let bidfloor = get_amount(map, "bidfloor")?;
                let bidfloorcur = get_or::<String>(map, "bidfloorcur", "USD".to_owned())?;
                let at = get_or::<AuctionType>(map, "at", AuctionType::SecondPricePlus)?;
                let wseat = get_option::<Vec<String>>(map, "wseat")?;
                let wadomain = get_option::<Vec<String>>(map, "wadomain")?;
                let ext = get_option::<serde_json::Map<String, Value>>(map, "ext")?;
                Ok(Deal { id, bidfloor, bidfloorcur, at, wseat, wadomain, ext })
            },
        }
    }

    proof fn round_trip(m: DealView) {
        lemma_members(m);
        let members = m.members();
        lemma_required::<String>(members, "id"@, m.id);
        lemma_amount(members, "bidfloor"@, m.bidfloor);
        lemma_defaulted::<String>(members, "bidfloorcur"@, m.bidfloorcur, "USD"@);
        lemma_defaulted::<AuctionType>(members, "at"@, m.at, AuctionType::SecondPricePlus);
        lemma_optional::<Vec<String>>(members, "wseat"@, m.wseat);
        lemma_optional::<Vec<String>>(members, "wadomain"@, m.wadomain);
        lemma_optional::<serde_json::Map<String, Value>>(members, "ext"@, m.ext);
    }

    proof fn decoded_valid(json: Json) {
        if let Json::Object(members) = json {
            lemma_defaulted_valid::<AuctionType>(members, "at"@, AuctionType::SecondPricePlus);
        }
    }
}

/// A default value is encoded to the least document: its required members, and no other.
pub proof fn default_is_minimal()
    ensures
        Deal::encoded(DealView::default()) == Json::Object(
            seq![
                ("id"@, Json::Text(Seq::empty())),
            ],
        ),
{
    reveal(with);
    reveal(with_some);
    reveal(with_unless);
    let d = DealView::default();
    let m = Seq::<(Seq<char>, Json)>::empty();
    lemma_insert_fresh(m, "id"@, <String as Codec>::encoded(d.id));
    let m = m.push(("id"@, <String as Codec>::encoded(d.id)));
    assert(d.members() == m);
    assert(m =~= seq![
        ("id"@, Json::Text(Seq::empty())),
    ]);
}

} // verus!
