//! The BidResponse object (OpenRTB 2.5, section 4.2.1).

use vstd::prelude::*;
use serde_json::Value;
use crate::codec::{
    Codec, current_option, defaulted, get, get_option, get_or, lemma_defaulted,
    lemma_lookup_with, lemma_lookup_with_some, lemma_lookup_with_unless, lemma_optional,
    lemma_optional_valid, lemma_required, model_of_option, optional, put, put_some, put_unless,
    required, text_is, valid_option, with, with_some, with_unless, written, written_unless,
};
use crate::error::{Error, ErrorView};
use crate::json::{Json, Members, lemma_insert_fresh, lemma_lookup_empty, lookup};
use crate::no_bid_reason::NoBidReason;
use crate::seat_bid::{SeatBid, SeatBidView};
use crate::value::value_from_map;

verus! {

/// BidResponse (OpenRTB 2.5, section 4.2.1).
///
/// This object is the top-level bid response object (i.e., the unnamed outer JSON object). The
/// id attribute is a reflection of the bid request ID for logging purposes. Similarly, bidid is
/// an optional response tracking ID for bidders. If specified, it can be included in the
/// subsequent win notice call if the bidder wins. At least one seatbid object is required,
/// which contains at least one bid for an impression. Other attributes are optional.
///
/// To express a "no-bid", the options are to return an empty response with HTTP 204.
/// Alternately if the bidder wishes to convey to the exchange a reason for not bidding, just a
/// BidResponse object is returned with a reason code in the nbr attribute.
#[derive(Clone, Debug, PartialEq)]
pub struct BidResponse {
    /// ID of the bid request to which this is a response. Required.
    pub id: String,
    /// Array of seatbid objects; 1+ required if a bid is to be made.
    pub seatbid: Option<Vec<SeatBid>>,
    /// Bidder generated response ID to assist with logging/tracking.
    pub bidid: Option<String>,
    /// Bid currency using ISO-4217 alpha codes. Left out of the document when it has its
    /// default, "USD".
    pub cur: String,
    /// Optional feature to allow a bidder to set data in the exchange's cookie. The string must
    /// be in base85 cookie safe characters and be in any format. Proper JSON encoding must be
    /// used to include "escaped" quotation marks.
    pub customdata: Option<String>,
    /// Reason for not bidding. Refer to List 5.24.
    pub nbr: Option<NoBidReason>,
    /// Placeholder for bidder-specific extensions to OpenRTB.
    pub ext: Option<serde_json::Map<String, Value>>,
}

/// The model of a [`BidResponse`]: the same fields, as plain values.
pub struct BidResponseView {
    pub id: Seq<char>,
    pub seatbid: Option<Seq<SeatBidView>>,
    pub bidid: Option<Seq<char>>,
    pub cur: Seq<char>,
    pub customdata: Option<Seq<char>>,
    pub nbr: Option<NoBidReason>,
    pub ext: Option<Members>,
}

impl BidResponseView {
    /// The value that [`BidResponse::default`] stands for.
    pub open spec fn default() -> BidResponseView {
        BidResponseView {
            id: Seq::<char>::empty(),
            seatbid: None,
            bidid: None,
            cur: "USD"@,
            customdata: None,
            nbr: None,
            ext: None,
        }
    }

    /// Whether encoding this value and decoding it again yields it: each part of it is
    /// valid.
    pub open spec fn valid(self) -> bool {
        &&& valid_option::<Vec<SeatBid>>(self.seatbid)
    }

    /// Whether no deprecated field is set in this value, at any depth.
    pub open spec fn current(self) -> bool {
        &&& current_option::<Vec<SeatBid>>(self.seatbid)
    }

    /// The members that this value is encoded to, in order.
    pub open spec fn members(self) -> Members {
        let m = Seq::<(Seq<char>, Json)>::empty();
        let m = with::<String>(m, "id"@, self.id);
        let m = with_some::<Vec<SeatBid>>(m, "seatbid"@, self.seatbid);
        let m = with_some::<String>(m, "bidid"@, self.bidid);
        let m = with_unless::<String>(m, "cur"@, self.cur, self.cur == "USD"@);
        let m = with_some::<String>(m, "customdata"@, self.customdata);
        let m = with_some::<NoBidReason>(m, "nbr"@, self.nbr);
        let m = with_some::<serde_json::Map<String, Value>>(m, "ext"@, self.ext);
        m
    }

    /// What decoding an object of these members yields: the value, or the error of the
    /// first field, in the order of the fields, whose member is not accepted.
    pub open spec fn of_members(members: Members) -> Result<BidResponseView, ErrorView> {
        let id = required::<String>(members, "id"@);
        let seatbid = optional::<Vec<SeatBid>>(members, "seatbid"@);
        let bidid = optional::<String>(members, "bidid"@);
        let cur = defaulted::<String>(members, "cur"@, "USD"@);
        let customdata = optional::<String>(members, "customdata"@);
        let nbr = optional::<NoBidReason>(members, "nbr"@);
        let ext = optional::<serde_json::Map<String, Value>>(members, "ext"@);
        if id is Err {
            Err(id->Err_0)
        } else if seatbid is Err {
            Err(seatbid->Err_0)
        } else if bidid is Err {
            Err(bidid->Err_0)
        } else if cur is Err {
            Err(cur->Err_0)
        } else if customdata is Err {
            Err(customdata->Err_0)
        } else if nbr is Err {
            Err(nbr->Err_0)
        } else if ext is Err {
            Err(ext->Err_0)
        } else {
            Ok(BidResponseView {
                id: id->Ok_0,
                seatbid: seatbid->Ok_0,
                bidid: bidid->Ok_0,
                cur: cur->Ok_0,
                customdata: customdata->Ok_0,
                nbr: nbr->Ok_0,
                ext: ext->Ok_0,
            })
        }
    }
}

impl Default for BidResponse {
    /// The value whose optional fields are absent and whose other fields have their
    /// defaults.
    fn default() -> (r: BidResponse)
        ensures
            r.model() == BidResponseView::default(),
    {
        BidResponse {
            id: String::new(),
            seatbid: None,
            bidid: None,
            cur: "USD".to_owned(),
            customdata: None,
            nbr: None,
            ext: None,
        }
    }
}

/// The lengths of the keys, and the letters that tell keys of one length apart: no two
/// keys are the same.
proof fn lemma_keys()
    ensures
        "id"@.len() == 2,
        "seatbid"@.len() == 7,
        "bidid"@.len() == 5,
        "cur"@.len() == 3 && "cur"@[0] == 'c',
        "customdata"@.len() == 10,
        "nbr"@.len() == 3 && "nbr"@[0] == 'n',
        "ext"@.len() == 3 && "ext"@[0] == 'e',
{
    reveal_strlit("id");
    reveal_strlit("seatbid");
    reveal_strlit("bidid");
    reveal_strlit("cur");
    reveal_strlit("customdata");
    reveal_strlit("nbr");
    reveal_strlit("ext");
}

/// What is found under each key among the members that a value is encoded to.
proof fn lemma_members(m: BidResponseView)
    ensures
        lookup(m.members(), "id"@) == Some(<String as Codec>::encoded(m.id)),
        lookup(m.members(), "seatbid"@) == written::<Vec<SeatBid>>(m.seatbid),
        lookup(m.members(), "bidid"@) == written::<String>(m.bidid),
        lookup(m.members(), "cur"@) == written_unless::<String>(m.cur, m.cur == "USD"@),
        lookup(m.members(), "customdata"@) == written::<String>(m.customdata),
        lookup(m.members(), "nbr"@) == written::<NoBidReason>(m.nbr),
        lookup(m.members(), "ext"@) == written::<serde_json::Map<String, Value>>(m.ext),
{
    broadcast use {lemma_lookup_with, lemma_lookup_with_some, lemma_lookup_with_unless};
    lemma_keys();
    assert forall|key: Seq<char>| lookup(Seq::empty(), key) is None by {
        lemma_lookup_empty(key);
    }
}

impl Codec for BidResponse {
    type Model = BidResponseView;

    open spec fn model(&self) -> BidResponseView {
        BidResponseView {
            id: self.id.model(),
            seatbid: model_of_option::<Vec<SeatBid>>(self.seatbid),
            bidid: model_of_option::<String>(self.bidid),
            cur: self.cur.model(),
            customdata: model_of_option::<String>(self.customdata),
            nbr: model_of_option::<NoBidReason>(self.nbr),
            ext: model_of_option::<serde_json::Map<String, Value>>(self.ext),
        }
    }

    open spec fn valid(m: BidResponseView) -> bool {
        m.valid()
    }

    open spec fn current(m: BidResponseView) -> bool {
        m.current()
    }

    open spec fn encoded(m: BidResponseView) -> Json {
        Json::Object(m.members())
    }

    open spec fn decoded(json: Json) -> Result<BidResponseView, ErrorView> {
        match json {
            Json::Object(members) => BidResponseView::of_members(members),
            _ => Err(ErrorView::shape(json, "an object"@)),
        }
    }

    fn to_value(&self) -> (value: Value) {
        let mut map = serde_json::Map::new();
        put::<String>(&mut map, "id", &self.id);
        put_some::<Vec<SeatBid>>(&mut map, "seatbid", &self.seatbid);
        put_some::<String>(&mut map, "bidid", &self.bidid);
        put_unless::<String>(&mut map, "cur", &self.cur, text_is(&self.cur, "USD"));
        put_some::<String>(&mut map, "customdata", &self.customdata);
        put_some::<NoBidReason>(&mut map, "nbr", &self.nbr);
        put_some::<serde_json::Map<String, Value>>(&mut map, "ext", &self.ext);
        value_from_map(map)
    }

    fn from_value(value: &Value) -> (r: Result<BidResponse, Error>) {
        match value.as_object() {
            None => Err(Error::shape(value, "an object")),
            Some(map) => {
                let id = get::<String>(map, "id")?;
                let seatbid = get_option::<Vec<SeatBid>>(map, "seatbid")?;
                let bidid = get_option::<String>(map, "bidid")?;
                let cur = get_or::<String>(map, "cur", "USD".to_owned())?;
                let customdata = get_option::<String>(map, "customdata")?;
                let nbr = get_option::<NoBidReason>(map, "nbr")?;
                let ext = get_option::<serde_json::Map<String, Value>>(map, "ext")?;
                Ok(BidResponse { id, seatbid, bidid, cur, customdata, nbr, ext })
            },
        }
    }

    proof fn round_trip(m: BidResponseView) {
        lemma_members(m);
        let members = m.members();
        lemma_required::<String>(members, "id"@, m.id);
        lemma_optional::<Vec<SeatBid>>(members, "seatbid"@, m.seatbid);
        lemma_optional::<String>(members, "bidid"@, m.bidid);
        lemma_defaulted::<String>(members, "cur"@, m.cur, "USD"@);
        lemma_optional::<String>(members, "customdata"@, m.customdata);
        lemma_optional::<NoBidReason>(members, "nbr"@, m.nbr);
        lemma_optional::<serde_json::Map<String, Value>>(members, "ext"@, m.ext);
    }

    proof fn decoded_valid(json: Json) {
        if let Json::Object(members) = json {
            lemma_optional_valid::<Vec<SeatBid>>(members, "seatbid"@);
        }
    }
}

/// A default value is encoded to the least document: its required members, and no other.
pub proof fn default_is_minimal()
    ensures
        BidResponse::encoded(BidResponseView::default()) == Json::Object(
            seq![
                ("id"@, Json::Text(Seq::empty())),
            ],
        ),
{
    reveal(with);
    reveal(with_some);
    reveal(with_unless);
    let d = BidResponseView::default();
    let m = Seq::<(Seq<char>, Json)>::empty();
    lemma_insert_fresh(m, "id"@, <String as Codec>::encoded(d.id));
    let m = m.push(("id"@, <String as Codec>::encoded(d.id)));
    assert(d.members() == m);
    assert(m =~= seq![
        ("id"@, Json::Text(Seq::empty())),
    ]);
}

} // verus!
