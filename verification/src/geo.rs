//! The Geo object (OpenRTB 2.5, section 3.2.19).

use vstd::prelude::*;
use serde_json::{Number, Value};
use crate::codec::{
    Codec, get_option, lemma_lookup_with, lemma_lookup_with_some, lemma_lookup_with_unless,
    lemma_optional, model_of_option, optional, put_some, with_some, written,
};
use crate::error::{Error, ErrorView};
use crate::ip_location_service::IpLocationService;
use crate::json::{Json, Members, Num, lemma_lookup_empty, lookup};
use crate::location_type::LocationType;
use crate::value::value_from_map;

verus! {

/// Geo (OpenRTB 2.5, section 3.2.19).
///
/// This object encapsulates various methods for specifying a geographic location. When
/// subordinate to a Device object, it indicates the location of the device which can also be
/// interpreted as the user's current location. When subordinate to a User object, it indicates
/// the location of the user's home base (i.e., not necessarily their current location).
///
/// The lat/lon attributes should only be passed if they conform to the accuracy depicted in the
/// type attribute. For example, the centroid of a geographic region such as postal code should
/// not be passed.
#[derive(Clone, Debug, PartialEq)]
pub struct Geo {
    /// Latitude from -90.0 to +90.0, where negative is south.
    pub lat: Option<Number>,
    /// Longitude from -180.0 to +180.0, where negative is west.
    pub lon: Option<Number>,
    /// Source of location data; recommended when passing lat/lon. Refer to List 5.20.
    pub type_: Option<LocationType>,
    /// Estimated location accuracy in meters; recommended when lat/lon are specified and
    /// derived from a device's location services (i.e., type = 1). Note that this is the
    /// accuracy as reported from the device. Consult OS specific documentation (e.g., Android,
    /// iOS) for exact interpretation.
    pub accuracy: Option<i32>,
    /// Number of seconds since this geolocation fix was established. Note that devices may
    /// cache location data across multiple fetches. Ideally, this value should be from the time
    /// the actual fix was taken.
    pub lastfix: Option<i32>,
    /// Service or provider used to determine geolocation from IP address if applicable (i.e.,
    /// type = 2). Refer to List 5.23.
    pub ipservice: Option<IpLocationService>,
    /// Country code using ISO-3166-1-alpha-3.
    pub country: Option<String>,
    /// Region code using ISO-3166-2; 2-letter state code if USA.
    pub region: Option<String>,
    /// Region of a country using FIPS 10-4 notation. While OpenRTB supports this attribute, it
    /// has been withdrawn by NIST in 2008.
    pub regionfips104: Option<String>,
    /// Google metro code; similar to but not exactly Nielsen DMAs. See Appendix A for a link to
    /// the codes.
    pub metro: Option<String>,
    /// City using United Nations Code for Trade & Transport Locations. See Appendix A for a
    /// link to the codes.
    pub city: Option<String>,
    /// Zip or postal code.
    pub zip: Option<String>,
    /// Local time as the number +/- of minutes from UTC.
    pub utcoffset: Option<i32>,
    /// Placeholder for exchange-specific extensions to OpenRTB.
    pub ext: Option<serde_json::Map<String, Value>>,
}

/// The model of a [`Geo`]: the same fields, as plain values.
pub struct GeoView {
    pub lat: Option<Num>,
    pub lon: Option<Num>,
    pub type_: Option<LocationType>,
    pub accuracy: Option<i32>,
    pub lastfix: Option<i32>,
    pub ipservice: Option<IpLocationService>,
    pub country: Option<Seq<char>>,
    pub region: Option<Seq<char>>,
    pub regionfips104: Option<Seq<char>>,
    pub metro: Option<Seq<char>>,
    pub city: Option<Seq<char>>,
    pub zip: Option<Seq<char>>,
    pub utcoffset: Option<i32>,
    pub ext: Option<Members>,
}

impl GeoView {
    /// The value that [`Geo::default`] stands for.
    pub open spec fn default() -> GeoView {
        GeoView {
            lat: None,
            lon: None,
            type_: None,
            accuracy: None,
            lastfix: None,
            ipservice: None,
            country: None,
            region: None,
            regionfips104: None,
            metro: None,
            city: None,
            zip: None,
            utcoffset: None,
            ext: None,
        }
    }

    /// Whether encoding this value and decoding it again yields it: each part of it is
    /// valid.
    pub open spec fn valid(self) -> bool {
        true
    }

    /// Whether no deprecated field is set in this value, at any depth.
    pub open spec fn current(self) -> bool {
        true
    }

    /// The members that this value is encoded to, in order.
    pub open spec fn members(self) -> Members {
        let m = Seq::<(Seq<char>, Json)>::empty();
        let m = with_some::<Number>(m, "lat"@, self.lat);
        let m = with_some::<Number>(m, "lon"@, self.lon);
        let m = with_some::<LocationType>(m, "type"@, self.type_);
        let m = with_some::<i32>(m, "accuracy"@, self.accuracy);
        let m = with_some::<i32>(m, "lastfix"@, self.lastfix);
        let m = with_some::<IpLocationService>(m, "ipservice"@, self.ipservice);
        let m = with_some::<String>(m, "country"@, self.country);
        let m = with_some::<String>(m, "region"@, self.region);
        let m = with_some::<String>(m, "regionfips104"@, self.regionfips104);
        let m = with_some::<String>(m, "metro"@, self.metro);
        let m = with_some::<String>(m, "city"@, self.city);
        let m = with_some::<String>(m, "zip"@, self.zip);
        let m = with_some::<i32>(m, "utcoffset"@, self.utcoffset);
        let m = with_some::<serde_json::Map<String, Value>>(m, "ext"@, self.ext);
        m
    }

    /// What decoding an object of these members yields: the value, or the error of the
    /// first field, in the order of the fields, whose member is not accepted.
    pub open spec fn of_members(members: Members) -> Result<GeoView, ErrorView> {
        let lat = optional::<Number>(members, "lat"@);
        let lon = optional::<Number>(members, "lon"@);
        let type_ = optional::<LocationType>(members, "type"@);
        let accuracy = optional::<i32>(members, "accuracy"@);
        let lastfix = optional::<i32>(members, "lastfix"@);
        let ipservice = optional::<IpLocationService>(members, "ipservice"@);
        let country = optional::<String>(members, "country"@);
        let region = optional::<String>(members, "region"@);
        let regionfips104 = optional::<String>(members, "regionfips104"@);
        let metro = optional::<String>(members, "metro"@);
        let city = optional::<String>(members, "city"@);
        let zip = optional::<String>(members, "zip"@);
        let utcoffset = optional::<i32>(members, "utcoffset"@);
        let ext = optional::<serde_json::Map<String, Value>>(members, "ext"@);
        if lat is Err {
            Err(lat->Err_0)
        } else if lon is Err {
            Err(lon->Err_0)
        } else if type_ is Err {
            Err(type_->Err_0)
        } else if accuracy is Err {
            Err(accuracy->Err_0)
        } else if lastfix is Err {
            Err(lastfix->Err_0)
        } else if ipservice is Err {
            Err(ipservice->Err_0)
        } else if country is Err {
            Err(country->Err_0)
        } else if region is Err {
            Err(region->Err_0)
        } else if regionfips104 is Err {
            Err(regionfips104->Err_0)
        } else if metro is Err {
            Err(metro->Err_0)
        } else if city is Err {
            Err(city->Err_0)
        } else if zip is Err {
            Err(zip->Err_0)
        } else if utcoffset is Err {
            Err(utcoffset->Err_0)
        } else if ext is Err {
            Err(ext->Err_0)
        } else {
            Ok(GeoView {
                lat: lat->Ok_0,
                lon: lon->Ok_0,
                type_: type_->Ok_0,
                accuracy: accuracy->Ok_0,
                lastfix: lastfix->Ok_0,
                ipservice: ipservice->Ok_0,
                country: country->Ok_0,
                region: region->Ok_0,
                regionfips104: regionfips104->Ok_0,
                metro: metro->Ok_0,
                city: city->Ok_0,
                zip: zip->Ok_0,
                utcoffset: utcoffset->Ok_0,
                ext: ext->Ok_0,
            })
        }
    }
}

impl Default for Geo {
    /// The value whose optional fields are absent and whose other fields have their
    /// defaults.
    fn default() -> (r: Geo)
        ensures
            r.model() == GeoView::default(),
    {
        Geo {
            lat: None,
            lon: None,
            type_: None,
            accuracy: None,
            lastfix: None,
            ipservice: None,
            country: None,
            region: None,
            regionfips104: None,
            metro: None,
            city: None,
            zip: None,
            utcoffset: None,
            ext: None,
        }
    }
}

/// The lengths of the keys, and the letters that tell keys of one length apart: no two
/// keys are the same.
proof fn lemma_keys()
    ensures
        "lat"@.len() == 3 && "lat"@[1] == 'a',
        "lon"@.len() == 3 && "lon"@[1] == 'o',
        "type"@.len() == 4 && "type"@[0] == 't',
        "accuracy"@.len() == 8,
        "lastfix"@.len() == 7 && "lastfix"@[0] == 'l',
        "ipservice"@.len() == 9 && "ipservice"@[0] == 'i',
        "country"@.len() == 7 && "country"@[0] == 'c',
        "region"@.len() == 6,
        "regionfips104"@.len() == 13,
        "metro"@.len() == 5,
        "city"@.len() == 4 && "city"@[0] == 'c',
        "zip"@.len() == 3 && "zip"@[1] == 'i',
        "utcoffset"@.len() == 9 && "utcoffset"@[0] == 'u',
        "ext"@.len() == 3 && "ext"@[1] == 'x',
{
    reveal_strlit("lat");
    reveal_strlit("lon");
    reveal_strlit("type");
    reveal_strlit("accuracy");
    reveal_strlit("lastfix");
    reveal_strlit("ipservice");
    reveal_strlit("country");
    reveal_strlit("region");
    reveal_strlit("regionfips104");
    reveal_strlit("metro");
    reveal_strlit("city");
    reveal_strlit("zip");
    reveal_strlit("utcoffset");
    reveal_strlit("ext");
}

/// What is found under each key among the members that a value is encoded to.
proof fn lemma_members(m: GeoView)
    ensures
        lookup(m.members(), "lat"@) == written::<Number>(m.lat),
        lookup(m.members(), "lon"@) == written::<Number>(m.lon),
        lookup(m.members(), "type"@) == written::<LocationType>(m.type_),
        lookup(m.members(), "accuracy"@) == written::<i32>(m.accuracy),
        lookup(m.members(), "lastfix"@) == written::<i32>(m.lastfix),
        lookup(m.members(), "ipservice"@) == written::<IpLocationService>(m.ipservice),
        lookup(m.members(), "country"@) == written::<String>(m.country),
        lookup(m.members(), "region"@) == written::<String>(m.region),
        lookup(m.members(), "regionfips104"@) == written::<String>(m.regionfips104),
        lookup(m.members(), "metro"@) == written::<String>(m.metro),
        lookup(m.members(), "city"@) == written::<String>(m.city),
        lookup(m.members(), "zip"@) == written::<String>(m.zip),
        lookup(m.members(), "utcoffset"@) == written::<i32>(m.utcoffset),
        lookup(m.members(), "ext"@) == written::<serde_json::Map<String, Value>>(m.ext),
{
    broadcast use {lemma_lookup_with, lemma_lookup_with_some, lemma_lookup_with_unless};
    lemma_keys();
    assert forall|key: Seq<char>| lookup(Seq::empty(), key) is None by {
        lemma_lookup_empty(key);
    }
}

impl Codec for Geo {
    type Model = GeoView;

    open spec fn model(&self) -> GeoView {
        GeoView {
            lat: model_of_option::<Number>(self.lat),
            lon: model_of_option::<Number>(self.lon),
            type_: model_of_option::<LocationType>(self.type_),
            accuracy: model_of_option::<i32>(self.accuracy),
            lastfix: model_of_option::<i32>(self.lastfix),
            ipservice: model_of_option::<IpLocationService>(self.ipservice),
            country: model_of_option::<String>(self.country),
            region: model_of_option::<String>(self.region),
            regionfips104: model_of_option::<String>(self.regionfips104),
            metro: model_of_option::<String>(self.metro),
            city: model_of_option::<String>(self.city),
            zip: model_of_option::<String>(self.zip),
            utcoffset: model_of_option::<i32>(self.utcoffset),
            ext: model_of_option::<serde_json::Map<String, Value>>(self.ext),
        }
    }

    open spec fn valid(m: GeoView) -> bool {
        m.valid()
    }

    open spec fn current(m: GeoView) -> bool {
        m.current()
    }

    open spec fn encoded(m: GeoView) -> Json {
        Json::Object(m.members())
    }

    open spec fn decoded(json: Json) -> Result<GeoView, ErrorView> {
        match json {
            Json::Object(members) => GeoView::of_members(members),
            _ => Err(ErrorView::shape(json, "an object"@)),
        }
    }

    fn to_value(&self) -> (value: Value) {
        let mut map = serde_json::Map::new();
        put_some::<Number>(&mut map, "lat", &self.lat);
        put_some::<Number>(&mut map, "lon", &self.lon);
        put_some::<LocationType>(&mut map, "type", &self.type_);
        put_some::<i32>(&mut map, "accuracy", &self.accuracy);
        put_some::<i32>(&mut map, "lastfix", &self.lastfix);
        put_some::<IpLocationService>(&mut map, "ipservice", &self.ipservice);
        put_some::<String>(&mut map, "country", &self.country);
        put_some::<String>(&mut map, "region", &self.region);
        put_some::<String>(&mut map, "regionfips104", &self.regionfips104);
        put_some::<String>(&mut map, "metro", &self.metro);
        put_some::<String>(&mut map, "city", &self.city);
        put_some::<String>(&mut map, "zip", &self.zip);
        put_some::<i32>(&mut map, "utcoffset", &self.utcoffset);
        put_some::<serde_json::Map<String, Value>>(&mut map, "ext", &self.ext);
        value_from_map(map)
    }

    fn from_value(value: &Value) -> (r: Result<Geo, Error>) {
        match value.as_object() {
            None => Err(Error::shape(value, "an object")),
            Some(map) => {
                let lat = get_option::<Number>(map, "lat")?;
                let lon = get_option::<Number>(map, "lon")?;
                let type_ = get_option::<LocationType>(map, "type")?;
                let accuracy = get_option::<i32>(map, "accuracy")?;
                let lastfix = get_option::<i32>(map, "lastfix")?;
                let ipservice = get_option::<IpLocationService>(map, "ipservice")?;
                let country = get_option::<String>(map, "country")?;
                let region = get_option::<String>(map, "region")?;
                let regionfips104 = get_option::<String>(map, "regionfips104")?;
                let metro = get_option::<String>(map, "metro")?;
                let city = get_option::<String>(map, "city")?;
                let zip = get_option::<String>(map, "zip")?;
                let utcoffset = get_option::<i32>(map, "utcoffset")?;
                let ext = get_option::<serde_json::Map<String, Value>>(map, "ext")?;
                Ok(Geo {
                    lat, lon, type_, accuracy, lastfix, ipservice, country, region, regionfips104,
                    metro, city, zip, utcoffset, ext,
                })
            },
        }
    }

    proof fn round_trip(m: GeoView) {
        lemma_members(m);
        let members = m.members();
        lemma_optional::<Number>(members, "lat"@, m.lat);
        lemma_optional::<Number>(members, "lon"@, m.lon);
        lemma_optional::<LocationType>(members, "type"@, m.type_);
        lemma_optional::<i32>(members, "accuracy"@, m.accuracy);
        lemma_optional::<i32>(members, "lastfix"@, m.lastfix);
        lemma_optional::<IpLocationService>(members, "ipservice"@, m.ipservice);
        lemma_optional::<String>(members, "country"@, m.country);
        lemma_optional::<String>(members, "region"@, m.region);
        lemma_optional::<String>(members, "regionfips104"@, m.regionfips104);
        lemma_optional::<String>(members, "metro"@, m.metro);
        lemma_optional::<String>(members, "city"@, m.city);
        lemma_optional::<String>(members, "zip"@, m.zip);
        lemma_optional::<i32>(members, "utcoffset"@, m.utcoffset);
        lemma_optional::<serde_json::Map<String, Value>>(members, "ext"@, m.ext);
    }

    proof fn decoded_valid(json: Json) {
        if let Json::Object(members) = json {
        }
    }
}

/// A default value is encoded to the least document: its required members, and no other.
pub proof fn default_is_minimal()
    ensures
        Geo::encoded(GeoView::default()) == Json::Object(Seq::empty()),
{
    reveal(with_some);
    let d = GeoView::default();
    assert(d.members() =~= Seq::empty());
}

} // verus!
