//! The User object (OpenRTB 2.5, section 3.2.20).

use vstd::prelude::*;
use serde_json::Value;
use crate::codec::{
    Codec, current_option, get_option, lemma_lookup_with, lemma_lookup_with_some,
    lemma_lookup_with_unless, lemma_optional, lemma_optional_valid, model_of_option, optional,
    put_some, valid_option, with_some, written,
};
use crate::data::{Data, DataView};
use crate::error::{Error, ErrorView};
use crate::gender::Gender;
use crate::geo::{Geo, GeoView};
use crate::json::{Json, Members, lemma_lookup_empty, lookup};
use crate::value::value_from_map;

verus! {

/// User (OpenRTB 2.5, section 3.2.20).
///
/// This object contains information known or derived about the human user of the device (i.e.,
/// the audience for advertising). The user id is an exchange artifact and may be subject to
/// rotation or other privacy policies. However, this user ID must be stable long enough to
/// serve reasonably as the basis for frequency capping and retargeting.
#[derive(Clone, Debug, PartialEq)]
pub struct User {
    /// Exchange-specific ID for the user. At least one of id or buyeruid is recommended.
    pub id: Option<String>,
    /// Buyer-specific ID for the user as mapped by the exchange for the buyer. At least one of
    /// buyeruid or id is recommended.
    pub buyeruid: Option<String>,
    /// Year of birth as a 4-digit integer.
    pub yob: Option<i32>,
    /// Gender, where "M" = male, "F" = female, "O" = known to be other (i.e., omitted is
    /// unknown).
    pub gender: Option<Gender>,
    /// Comma separated list of keywords, interests, or intent.
    pub keywords: Option<String>,
    /// Optional feature to pass bidder data that was set in the exchange's cookie. The string
    /// must be in base85 cookie safe characters and be in any format. Proper JSON encoding must
    /// be used to include "escaped" quotation marks.
    pub customdata: Option<String>,
    /// Location of the user's home base defined by a Geo object (Section 3.2.19). This is not
    /// necessarily their current location.
    pub geo: Option<Geo>,
    /// Additional user data. Each Data object (Section 3.2.21) represents a different data
    /// source.
    pub data: Option<Vec<Data>>,
    /// Placeholder for exchange-specific extensions to OpenRTB.
    pub ext: Option<serde_json::Map<String, Value>>,
}

/// The model of a [`User`]: the same fields, as plain values.
pub struct UserView {
    pub id: Option<Seq<char>>,
    pub buyeruid: Option<Seq<char>>,
    pub yob: Option<i32>,
    pub gender: Option<Gender>,
    pub keywords: Option<Seq<char>>,
    pub customdata: Option<Seq<char>>,
    pub geo: Option<GeoView>,
    pub data: Option<Seq<DataView>>,
    pub ext: Option<Members>,
}

impl UserView {
    /// The value that [`User::default`] stands for.
    pub open spec fn default() -> UserView {
        UserView {
            id: None,
            buyeruid: None,
            yob: None,
            gender: None,
            keywords: None,
            customdata: None,
            geo: None,
            data: None,
            ext: None,
        }
    }

    /// Whether encoding this value and decoding it again yields it: each part of it is
    /// valid.
    pub open spec fn valid(self) -> bool {
        &&& valid_option::<Geo>(self.geo)
        &&& valid_option::<Vec<Data>>(self.data)
    }

    /// Whether no deprecated field is set in this value, at any depth.
    pub open spec fn current(self) -> bool {
        &&& current_option::<Geo>(self.geo)
        &&& current_option::<Vec<Data>>(self.data)
    }

    /// The members that this value is encoded to, in order.
    pub open spec fn members(self) -> Members {
        let m = Seq::<(Seq<char>, Json)>::empty();
        let m = with_some::<String>(m, "id"@, self.id);
        let m = with_some::<String>(m, "buyeruid"@, self.buyeruid);
        let m = with_some::<i32>(m, "yob"@, self.yob);
        let m = with_some::<Gender>(m, "gender"@, self.gender);
        let m = with_some::<String>(m, "keywords"@, self.keywords);
        let m = with_some::<String>(m, "customdata"@, self.customdata);
        let m = with_some::<Geo>(m, "geo"@, self.geo);
        let m = with_some::<Vec<Data>>(m, "data"@, self.data);
        let m = with_some::<serde_json::Map<String, Value>>(m, "ext"@, self.ext);
        m
    }

    /// What decoding an object of these members yields: the value, or the error of the
    /// first field, in the order of the fields, whose member is not accepted.
    pub open spec fn of_members(members: Members) -> Result<UserView, ErrorView> {
        let id = optional::<String>(members, "id"@);
        let buyeruid = optional::<String>(members, "buyeruid"@);
        let yob = optional::<i32>(members, "yob"@);
        let gender = optional::<Gender>(members, "gender"@);
        let keywords = optional::<String>(members, "keywords"@);
        let customdata = optional::<String>(members, "customdata"@);
        let geo = optional::<Geo>(members, "geo"@);
        let data = optional::<Vec<Data>>(members, "data"@);
        let ext = optional::<serde_json::Map<String, Value>>(members, "ext"@);
        if id is Err {
            Err(id->Err_0)
        } else if buyeruid is Err {
            Err(buyeruid->Err_0)
        } else if yob is Err {
            Err(yob->Err_0)
        } else if gender is Err {
            Err(gender->Err_0)
        } else if keywords is Err {
            Err(keywords->Err_0)
        } else if customdata is Err {
            Err(customdata->Err_0)
        } else if geo is Err {
            Err(geo->Err_0)
        } else if data is Err {
            Err(data->Err_0)
        } else if ext is Err {
            Err(ext->Err_0)
        } else {
            Ok(UserView {
                id: id->Ok_0,
                buyeruid: buyeruid->Ok_0,
                yob: yob->Ok_0,
                gender: gender->Ok_0,
                keywords: keywords->Ok_0,
                customdata: customdata->Ok_0,
                geo: geo->Ok_0,
                data: data->Ok_0,
                ext: ext->Ok_0,
            })
        }
    }
}

impl Default for User {
    /// The value whose optional fields are absent and whose other fields have their
    /// defaults.
    fn default() -> (r: User)
        ensures
            r.model() == UserView::default(),
    {
        User {
            id: None,
            buyeruid: None,
            yob: None,
            gender: None,
            keywords: None,
            customdata: None,
            geo: None,
            data: None,
            ext: None,
        }
    }
}

/// The lengths of the keys, and the letters that tell keys of one length apart: no two
/// keys are the same.
proof fn lemma_keys()
    ensures
        "id"@.len() == 2,
        "buyeruid"@.len() == 8 && "buyeruid"@[0] == 'b',
        "yob"@.len() == 3 && "yob"@[0] == 'y',
        "gender"@.len() == 6,
        "keywords"@.len() == 8 && "keywords"@[0] == 'k',
        "customdata"@.len() == 10,
        "geo"@.len() == 3 && "geo"@[0] == 'g',
        "data"@.len() == 4,
        "ext"@.len() == 3 && "ext"@[0] == 'e',
{
    reveal_strlit("id");
    reveal_strlit("buyeruid");
    reveal_strlit("yob");
    reveal_strlit("gender");
    reveal_strlit("keywords");
    reveal_strlit("customdata");
    reveal_strlit("geo");
    reveal_strlit("data");
    reveal_strlit("ext");
}

/// What is found under each key among the members that a value is encoded to.
proof fn lemma_members(m: UserView)
    ensures
        lookup(m.members(), "id"@) == written::<String>(m.id),
        lookup(m.members(), "buyeruid"@) == written::<String>(m.buyeruid),
        lookup(m.members(), "yob"@) == written::<i32>(m.yob),
        lookup(m.members(), "gender"@) == written::<Gender>(m.gender),
        lookup(m.members(), "keywords"@) == written::<String>(m.keywords),
        lookup(m.members(), "customdata"@) == written::<String>(m.customdata),
        lookup(m.members(), "geo"@) == written::<Geo>(m.geo),
        lookup(m.members(), "data"@) == written::<Vec<Data>>(m.data),
        lookup(m.members(), "ext"@) == written::<serde_json::Map<String, Value>>(m.ext),
{
    broadcast use {lemma_lookup_with, lemma_lookup_with_some, lemma_lookup_with_unless};
    lemma_keys();
    assert forall|key: Seq<char>| lookup(Seq::empty(), key) is None by {
        lemma_lookup_empty(key);
    }
}

impl Codec for User {
    type Model = UserView;

    open spec fn model(&self) -> UserView {
        UserView {
            id: model_of_option::<String>(self.id),
            buyeruid: model_of_option::<String>(self.buyeruid),
            yob: model_of_option::<i32>(self.yob),
            gender: model_of_option::<Gender>(self.gender),
            keywords: model_of_option::<String>(self.keywords),
            customdata: model_of_option::<String>(self.customdata),
            geo: model_of_option::<Geo>(self.geo),
            data: model_of_option::<Vec<Data>>(self.data),
            ext: model_of_option::<serde_json::Map<String, Value>>(self.ext),
        }
    }

    open spec fn valid(m: UserView) -> bool {
        m.valid()
    }

    open spec fn current(m: UserView) -> bool {
        m.current()
    }

    open spec fn encoded(m: UserView) -> Json {
        Json::Object(m.members())
    }

    open spec fn decoded(json: Json) -> Result<UserView, ErrorView> {
        match json {
            Json::Object(members) => UserView::of_members(members),
            _ => Err(ErrorView::shape(json, "an object"@)),
        }
    }

    fn to_value(&self) -> (value: Value) {
        let mut map = serde_json::Map::new();
        put_some::<String>(&mut map, "id", &self.id);
        put_some::<String>(&mut map, "buyeruid", &self.buyeruid);
        put_some::<i32>(&mut map, "yob", &self.yob);
        put_some::<Gender>(&mut map, "gender", &self.gender);
        put_some::<String>(&mut map, "keywords", &self.keywords);
        put_some::<String>(&mut map, "customdata", &self.customdata);
        put_some::<Geo>(&mut map, "geo", &self.geo);
        put_some::<Vec<Data>>(&mut map, "data", &self.data);
        put_some::<serde_json::Map<String, Value>>(&mut map, "ext", &self.ext);
        value_from_map(map)
    }

    fn from_value(value: &Value) -> (r: Result<User, Error>) {
        match value.as_object() {
            None => Err(Error::shape(value, "an object")),
            Some(map) => {
                let id = get_option::<String>(map, "id")?;
                let buyeruid = get_option::<String>(map, "buyeruid")?;
                let yob = get_option::<i32>(map, "yob")?;
                let gender = get_option::<Gender>(map, "gender")?;
                let keywords = get_option::<String>(map, "keywords")?;
                let customdata = get_option::<String>(map, "customdata")?;
                let geo = get_option::<Geo>(map, "geo")?;
                let data = get_option::<Vec<Data>>(map, "data")?;
                let ext = get_option::<serde_json::Map<String, Value>>(map, "ext")?;
                Ok(User { id, buyeruid, yob, gender, keywords, customdata, geo, data, ext })
            },
        }
    }

    proof fn round_trip(m: UserView) {
        lemma_members(m);
        let members = m.members();
        lemma_optional::<String>(members, "id"@, m.id);
        lemma_optional::<String>(members, "buyeruid"@, m.buyeruid);
        lemma_optional::<i32>(members, "yob"@, m.yob);
        lemma_optional::<Gender>(members, "gender"@, m.gender);
        lemma_optional::<String>(members, "keywords"@, m.keywords);
        lemma_optional::<String>(members, "customdata"@, m.customdata);
        lemma_optional::<Geo>(members, "geo"@, m.geo);
        lemma_optional::<Vec<Data>>(members, "data"@, m.data);
        lemma_optional::<serde_json::Map<String, Value>>(members, "ext"@, m.ext);
    }

    proof fn decoded_valid(json: Json) {
        if let Json::Object(members) = json {
            lemma_optional_valid::<Geo>(members, "geo"@);
            lemma_optional_valid::<Vec<Data>>(members, "data"@);
        }
    }
}

/// A default value is encoded to the least document: its required members, and no other.
pub proof fn default_is_minimal()
    ensures
        User::encoded(UserView::default()) == Json::Object(Seq::empty()),
{
    reveal(with_some);
    let d = UserView::default();
    assert(d.members() =~= Seq::empty());
}

} // verus!
