//! The Audio object (OpenRTB 2.5, section 3.2.8).

use vstd::prelude::*;
use serde_json::Value;
use crate::api_framework::ApiFramework;
use crate::banner::{Banner, BannerView};
use crate::codec::{
    Codec, current_option, encoded_items, get, get_option, lemma_lookup_with,
    lemma_lookup_with_some, lemma_lookup_with_unless, lemma_optional, lemma_optional_valid,
    lemma_required, model_of_option, optional, put, put_some, required, valid_option, with,
    with_some, written,
};
use crate::companion_type::CompanionType;
use crate::content_delivery_method::ContentDeliveryMethod;
use crate::creative_attribute::CreativeAttribute;
use crate::error::{Error, ErrorView};
use crate::feed_type::FeedType;
use crate::json::{Json, Members, lemma_insert_fresh, lemma_lookup_empty, lookup};
use crate::max_extended_ad_duration::MaxExtendedAdDuration;
use crate::protocol::Protocol;
use crate::start_delay::StartDelay;
use crate::value::value_from_map;
use crate::volume_normalization_mode::VolumeNormalizationMode;

verus! {

/// Audio (OpenRTB 2.5, section 3.2.8).
///
/// This object represents an audio type impression. Many of the fields are non-essential for
/// minimally viable transactions, but are included to offer fine control when needed. Audio in
/// OpenRTB generally assumes compliance with the DAAST standard. As such, the notion of
/// companion ads is supported by optionally including an array of Banner objects (refer to the
/// Banner object in Section 3.2.6) that define these companion ads.
///
/// The presence of a Audio as a subordinate of the Imp object indicates that this impression is
/// offered as an audio type impression. At the publisher's discretion, that same impression may
/// also be offered as banner, video, and/or native by also including as Imp subordinates
/// objects of those types. However, any given bid for the impression must conform to one of the
/// offered types.
#[derive(Clone, Debug, PartialEq)]
pub struct Audio {
    /// Content MIME types supported (e.g., "audio/mp4"). Required.
    pub mimes: Vec<String>,
    /// Minimum audio ad duration in seconds.
    pub minduration: Option<i32>,
    /// Maximum audio ad duration in seconds.
    pub maxduration: Option<i32>,
    /// Array of supported audio protocols. Refer to List 5.8.
    pub protocols: Option<Vec<Protocol>>,
    /// Indicates the start delay in seconds for pre-roll, mid-roll, or post-roll ad placements.
    /// Refer to List 5.12.
    pub startdelay: Option<StartDelay>,
    /// If multiple ad impressions are offered in the same bid request, the sequence number will
    /// allow for the coordinated delivery of multiple creatives.
    pub sequence: Option<i32>,
    /// Blocked creative attributes. Refer to List 5.3.
    pub battr: Option<Vec<CreativeAttribute>>,
    /// Maximum extended ad duration if extension is allowed. If blank or 0, extension is not
    /// allowed. If -1, extension is allowed, and there is no time limit imposed. If greater
    /// than 0, then the value represents the number of seconds of extended play supported
    /// beyond the maxduration value.
    pub maxextended: Option<MaxExtendedAdDuration>,
    /// Minimum bit rate in Kbps.
    pub minbitrate: Option<i32>,
    /// Maximum bit rate in Kbps.
    pub maxbitrate: Option<i32>,
    /// Supported delivery methods (e.g., streaming, progressive). If none specified, assume all
    /// are supported. Refer to List 5.15.
    pub delivery: Option<Vec<ContentDeliveryMethod>>,
    /// Array of Banner objects (Section 3.2.6) if companion ads are available.
    pub companionad: Option<Vec<Banner>>,
    /// List of supported API frameworks for this impression. Refer to List 5.6. If an API is
    /// not explicitly listed, it is assumed not to be supported.
    pub api: Option<Vec<ApiFramework>>,
    /// Supported DAAST companion ad types. Refer to List 5.14. Recommended if companion Banner
    /// objects are included via the companionad array.
    pub companiontype: Option<Vec<CompanionType>>,
    /// The maximum number of ads that can be played in an ad pod.
    pub maxseq: Option<i32>,
    /// Type of audio feed. Refer to List 5.16.
    pub feed: Option<FeedType>,
    /// Indicates if the ad is stitched with audio content or delivered independently, where 0 =
    /// no, 1 = yes.
    pub stitched: Option<bool>,
    /// Volume normalization mode. Refer to List 5.17.
    pub nvol: Option<VolumeNormalizationMode>,
    /// Placeholder for exchange-specific extensions to OpenRTB.
    pub ext: Option<serde_json::Map<String, Value>>,
}

/// The model of a [`Audio`]: the same fields, as plain values.
pub struct AudioView {
    pub mimes: Seq<Seq<char>>,
    pub minduration: Option<i32>,
    pub maxduration: Option<i32>,
    pub protocols: Option<Seq<Protocol>>,
    pub startdelay: Option<StartDelay>,
    pub sequence: Option<i32>,
    pub battr: Option<Seq<CreativeAttribute>>,
    pub maxextended: Option<MaxExtendedAdDuration>,
    pub minbitrate: Option<i32>,
    pub maxbitrate: Option<i32>,
    pub delivery: Option<Seq<ContentDeliveryMethod>>,
    pub companionad: Option<Seq<BannerView>>,
    pub api: Option<Seq<ApiFramework>>,
    pub companiontype: Option<Seq<CompanionType>>,
    pub maxseq: Option<i32>,
    pub feed: Option<FeedType>,
    pub stitched: Option<bool>,
    pub nvol: Option<VolumeNormalizationMode>,
    pub ext: Option<Members>,
}

impl AudioView {
    /// The value that [`Audio::default`] stands for.
    pub open spec fn default() -> AudioView {
        AudioView {
            mimes: Seq::<Seq<char>>::empty(),
            minduration: None,
            maxduration: None,
            protocols: None,
            startdelay: None,
            sequence: None,
            battr: None,
            maxextended: None,
            minbitrate: None,
            maxbitrate: None,
            delivery: None,
            companionad: None,
            api: None,
            companiontype: None,
            maxseq: None,
            feed: None,
            stitched: None,
            nvol: None,
            ext: None,
        }
    }

    /// Whether encoding this value and decoding it again yields it: each part of it is
    /// valid.
    pub open spec fn valid(self) -> bool {
        &&& valid_option::<StartDelay>(self.startdelay)
        &&& valid_option::<MaxExtendedAdDuration>(self.maxextended)
        &&& valid_option::<Vec<Banner>>(self.companionad)
    }

    /// Whether no deprecated field is set in this value, at any depth.
    pub open spec fn current(self) -> bool {
        &&& current_option::<Vec<Banner>>(self.companionad)
    }

    /// The members that this value is encoded to, in order.
    pub open spec fn members(self) -> Members {
        let m = Seq::<(Seq<char>, Json)>::empty();
        let m = with::<Vec<String>>(m, "mimes"@, self.mimes);
        let m = with_some::<i32>(m, "minduration"@, self.minduration);
        let m = with_some::<i32>(m, "maxduration"@, self.maxduration);
        let m = with_some::<Vec<Protocol>>(m, "protocols"@, self.protocols);
        let m = with_some::<StartDelay>(m, "startdelay"@, self.startdelay);
        let m = with_some::<i32>(m, "sequence"@, self.sequence);
        let m = with_some::<Vec<CreativeAttribute>>(m, "battr"@, self.battr);
        let m = with_some::<MaxExtendedAdDuration>(m, "maxextended"@, self.maxextended);
        let m = with_some::<i32>(m, "minbitrate"@, self.minbitrate);
        let m = with_some::<i32>(m, "maxbitrate"@, self.maxbitrate);
        let m = with_some::<Vec<ContentDeliveryMethod>>(m, "delivery"@, self.delivery);
        let m = with_some::<Vec<Banner>>(m, "companionad"@, self.companionad);
        let m = with_some::<Vec<ApiFramework>>(m, "api"@, self.api);
        let m = with_some::<Vec<CompanionType>>(m, "companiontype"@, self.companiontype);
        let m = with_some::<i32>(m, "maxseq"@, self.maxseq);
        let m = with_some::<FeedType>(m, "feed"@, self.feed);
        let m = with_some::<bool>(m, "stitched"@, self.stitched);
        let m = with_some::<VolumeNormalizationMode>(m, "nvol"@, self.nvol);
        let m = with_some::<serde_json::Map<String, Value>>(m, "ext"@, self.ext);
        m
    }

    /// What decoding an object of these members yields: the value, or the error of the
    /// first field, in the order of the fields, whose member is not accepted.
    pub open spec fn of_members(members: Members) -> Result<AudioView, ErrorView> {
        let mimes = required::<Vec<String>>(members, "mimes"@);
        let minduration = optional::<i32>(members, "minduration"@);
        let maxduration = optional::<i32>(members, "maxduration"@);
        let protocols = optional::<Vec<Protocol>>(members, "protocols"@);
        let startdelay = optional::<StartDelay>(members, "startdelay"@);
        let sequence = optional::<i32>(members, "sequence"@);
        let battr = optional::<Vec<CreativeAttribute>>(members, "battr"@);
        let maxextended = optional::<MaxExtendedAdDuration>(members, "maxextended"@);
        let minbitrate = optional::<i32>(members, "minbitrate"@);
        let maxbitrate = optional::<i32>(members, "maxbitrate"@);
        let delivery = optional::<Vec<ContentDeliveryMethod>>(members, "delivery"@);
        let companionad = optional::<Vec<Banner>>(members, "companionad"@);
        let api = optional::<Vec<ApiFramework>>(members, "api"@);
        let companiontype = optional::<Vec<CompanionType>>(members, "companiontype"@);
        let maxseq = optional::<i32>(members, "maxseq"@);
        let feed = optional::<FeedType>(members, "feed"@);
        let stitched = optional::<bool>(members, "stitched"@);
        let nvol = optional::<VolumeNormalizationMode>(members, "nvol"@);
        let ext = optional::<serde_json::Map<String, Value>>(members, "ext"@);
        if mimes is Err {
            Err(mimes->Err_0)
        } else if minduration is Err {
            Err(minduration->Err_0)
        } else if maxduration is Err {
            Err(maxduration->Err_0)
        } else if protocols is Err {
            Err(protocols->Err_0)
        } else if startdelay is Err {
            Err(startdelay->Err_0)
        } else if sequence is Err {
            Err(sequence->Err_0)
        } else if battr is Err {
            Err(battr->Err_0)
        } else if maxextended is Err {
            Err(maxextended->Err_0)
        } else if minbitrate is Err {
            Err(minbitrate->Err_0)
        } else if maxbitrate is Err {
            Err(maxbitrate->Err_0)
        } else if delivery is Err {
            Err(delivery->Err_0)
        } else if companionad is Err {
            Err(companionad->Err_0)
        } else if api is Err {
            Err(api->Err_0)
        } else if companiontype is Err {
            Err(companiontype->Err_0)
        } else if maxseq is Err {
            Err(maxseq->Err_0)
        } else if feed is Err {
            Err(feed->Err_0)
        } else if stitched is Err {
            Err(stitched->Err_0)
        } else if nvol is Err {
            Err(nvol->Err_0)
        } else if ext is Err {
            Err(ext->Err_0)
        } else {
            Ok(AudioView {
                mimes: mimes->Ok_0,
                minduration: minduration->Ok_0,
                maxduration: maxduration->Ok_0,
                protocols: protocols->Ok_0,
                startdelay: startdelay->Ok_0,
                sequence: sequence->Ok_0,
                battr: battr->Ok_0,
                maxextended: maxextended->Ok_0,
                minbitrate: minbitrate->Ok_0,
                maxbitrate: maxbitrate->Ok_0,
                delivery: delivery->Ok_0,
                companionad: companionad->Ok_0,
                api: api->Ok_0,
                companiontype: companiontype->Ok_0,
                maxseq: maxseq->Ok_0,
                feed: feed->Ok_0,
                stitched: stitched->Ok_0,
                nvol: nvol->Ok_0,
                ext: ext->Ok_0,
            })
        }
    }
}

impl Default for Audio {
    /// The value whose optional fields are absent and whose other fields have their
    /// defaults.
    fn default() -> (r: Audio)
        ensures
            r.model() == AudioView::default(),
    {
        let r = Audio {
            mimes: Vec::new(),
            minduration: None,
            maxduration: None,
            protocols: None,
            startdelay: None,
            sequence: None,
            battr: None,
            maxextended: None,
            minbitrate: None,
            maxbitrate: None,
            delivery: None,
            companionad: None,
            api: None,
            companiontype: None,
            maxseq: None,
            feed: None,
            stitched: None,
            nvol: None,
            ext: None,
        };
        assert(r.mimes.model() =~= Seq::empty());
        r
    }
}

/// The lengths of the keys, and the letters that tell keys of one length apart: no two
/// keys are the same.
proof fn lemma_keys()
    ensures
        "mimes"@.len() == 5 && "mimes"@[0] == 'm',
        "minduration"@.len() == 11 && "minduration"@[1] == 'i' && "minduration"@[3] == 'd',
        "maxduration"@.len() == 11 && "maxduration"@[1] == 'a' && "maxduration"@[3] == 'd',
        "protocols"@.len() == 9,
        "startdelay"@.len() == 10 && "startdelay"@[1] == 't',
        "sequence"@.len() == 8 && "sequence"@[2] == 'q',
        "battr"@.len() == 5 && "battr"@[0] == 'b',
        "maxextended"@.len() == 11 && "maxextended"@[1] == 'a' && "maxextended"@[3] == 'e',
        "minbitrate"@.len() == 10 && "minbitrate"@[1] == 'i',
        "maxbitrate"@.len() == 10 && "maxbitrate"@[1] == 'a',
        "delivery"@.len() == 8 && "delivery"@[2] == 'l',
        "companionad"@.len() == 11 && "companionad"@[1] == 'o' && "companionad"@[3] == 'p',
        "api"@.len() == 3 && "api"@[0] == 'a',
        "companiontype"@.len() == 13,
        "maxseq"@.len() == 6,
        "feed"@.len() == 4 && "feed"@[0] == 'f',
        "stitched"@.len() == 8 && "stitched"@[2] == 'i',
        "nvol"@.len() == 4 && "nvol"@[0] == 'n',
        "ext"@.len() == 3 && "ext"@[0] == 'e',
{
    reveal_strlit("mimes");
    reveal_strlit("minduration");
    reveal_strlit("maxduration");
    reveal_strlit("protocols");
    reveal_strlit("startdelay");
    reveal_strlit("sequence");
    reveal_strlit("battr");
    reveal_strlit("maxextended");
    reveal_strlit("minbitrate");
    reveal_strlit("maxbitrate");
    reveal_strlit("delivery");
    reveal_strlit("companionad");
    reveal_strlit("api");
    reveal_strlit("companiontype");
    reveal_strlit("maxseq");
    reveal_strlit("feed");
    reveal_strlit("stitched");
    reveal_strlit("nvol");
    reveal_strlit("ext");
}

/// What is found under each key among the members that a value is encoded to.
proof fn lemma_members(m: AudioView)
    ensures
        lookup(m.members(), "mimes"@) == Some(<Vec<String> as Codec>::encoded(m.mimes)),
        lookup(m.members(), "minduration"@) == written::<i32>(m.minduration),
        lookup(m.members(), "maxduration"@) == written::<i32>(m.maxduration),
        lookup(m.members(), "protocols"@) == written::<Vec<Protocol>>(m.protocols),
        lookup(m.members(), "startdelay"@) == written::<StartDelay>(m.startdelay),
        lookup(m.members(), "sequence"@) == written::<i32>(m.sequence),
        lookup(m.members(), "battr"@) == written::<Vec<CreativeAttribute>>(m.battr),
        lookup(m.members(), "maxextended"@) == written::<MaxExtendedAdDuration>(m.maxextended),
        lookup(m.members(), "minbitrate"@) == written::<i32>(m.minbitrate),
        lookup(m.members(), "maxbitrate"@) == written::<i32>(m.maxbitrate),
        lookup(m.members(), "delivery"@) == written::<Vec<ContentDeliveryMethod>>(m.delivery),
        lookup(m.members(), "companionad"@) == written::<Vec<Banner>>(m.companionad),
        lookup(m.members(), "api"@) == written::<Vec<ApiFramework>>(m.api),
        lookup(m.members(), "companiontype"@) == written::<Vec<CompanionType>>(m.companiontype),
        lookup(m.members(), "maxseq"@) == written::<i32>(m.maxseq),
        lookup(m.members(), "feed"@) == written::<FeedType>(m.feed),
        lookup(m.members(), "stitched"@) == written::<bool>(m.stitched),
        lookup(m.members(), "nvol"@) == written::<VolumeNormalizationMode>(m.nvol),
        lookup(m.members(), "ext"@) == written::<serde_json::Map<String, Value>>(m.ext),
{
    broadcast use {lemma_lookup_with, lemma_lookup_with_some, lemma_lookup_with_unless};
    lemma_keys();
    assert forall|key: Seq<char>| lookup(Seq::empty(), key) is None by {
        lemma_lookup_empty(key);
    }
}

impl Codec for Audio {
    type Model = AudioView;

    open spec fn model(&self) -> AudioView {
        AudioView {
            mimes: self.mimes.model(),
            minduration: model_of_option::<i32>(self.minduration),
            maxduration: model_of_option::<i32>(self.maxduration),
            protocols: model_of_option::<Vec<Protocol>>(self.protocols),
            startdelay: model_of_option::<StartDelay>(self.startdelay),
            sequence: model_of_option::<i32>(self.sequence),
            battr: model_of_option::<Vec<CreativeAttribute>>(self.battr),
            maxextended: model_of_option::<MaxExtendedAdDuration>(self.maxextended),
            minbitrate: model_of_option::<i32>(self.minbitrate),
            maxbitrate: model_of_option::<i32>(self.maxbitrate),
            delivery: model_of_option::<Vec<ContentDeliveryMethod>>(self.delivery),
            companionad: model_of_option::<Vec<Banner>>(self.companionad),
            api: model_of_option::<Vec<ApiFramework>>(self.api),
            companiontype: model_of_option::<Vec<CompanionType>>(self.companiontype),
            maxseq: model_of_option::<i32>(self.maxseq),
            feed: model_of_option::<FeedType>(self.feed),
            stitched: model_of_option::<bool>(self.stitched),
            nvol: model_of_option::<VolumeNormalizationMode>(self.nvol),
            ext: model_of_option::<serde_json::Map<String, Value>>(self.ext),
        }
    }

    open spec fn valid(m: AudioView) -> bool {
        m.valid()
    }

    open spec fn current(m: AudioView) -> bool {
        m.current()
    }

    open spec fn encoded(m: AudioView) -> Json {
        Json::Object(m.members())
    }

    open spec fn decoded(json: Json) -> Result<AudioView, ErrorView> {
        match json {
            Json::Object(members) => AudioView::of_members(members),
            _ => Err(ErrorView::shape(json, "an object"@)),
        }
    }

    fn to_value(&self) -> (value: Value) {
        let mut map = serde_json::Map::new();
        put::<Vec<String>>(&mut map, "mimes", &self.mimes);
        put_some::<i32>(&mut map, "minduration", &self.minduration);
        put_some::<i32>(&mut map, "maxduration", &self.maxduration);
        put_some::<Vec<Protocol>>(&mut map, "protocols", &self.protocols);
        put_some::<StartDelay>(&mut map, "startdelay", &self.startdelay);
        put_some::<i32>(&mut map, "sequence", &self.sequence);
        put_some::<Vec<CreativeAttribute>>(&mut map, "battr", &self.battr);
        put_some::<MaxExtendedAdDuration>(&mut map, "maxextended", &self.maxextended);
        put_some::<i32>(&mut map, "minbitrate", &self.minbitrate);
        put_some::<i32>(&mut map, "maxbitrate", &self.maxbitrate);
        put_some::<Vec<ContentDeliveryMethod>>(&mut map, "delivery", &self.delivery);
        put_some::<Vec<Banner>>(&mut map, "companionad", &self.companionad);
        put_some::<Vec<ApiFramework>>(&mut map, "api", &self.api);
        put_some::<Vec<CompanionType>>(&mut map, "companiontype", &self.companiontype);
        put_some::<i32>(&mut map, "maxseq", &self.maxseq);
        put_some::<FeedType>(&mut map, "feed", &self.feed);
        put_some::<bool>(&mut map, "stitched", &self.stitched);
        put_some::<VolumeNormalizationMode>(&mut map, "nvol", &self.nvol);
        put_some::<serde_json::Map<String, Value>>(&mut map, "ext", &self.ext);
        value_from_map(map)
    }

    fn from_value(value: &Value) -> (r: Result<Audio, Error>) {
        match value.as_object() {
            None => Err(Error::shape(value, "an object")),
            Some(map) => {
                let mimes = get::<Vec<String>>(map, "mimes")?;
                let minduration = get_option::<i32>(map, "minduration")?;
                let maxduration = get_option::<i32>(map, "maxduration")?;
                let protocols = get_option::<Vec<Protocol>>(map, "protocols")?;
                let startdelay = get_option::<StartDelay>(map, "startdelay")?;
                let sequence = get_option::<i32>(map, "sequence")?;
                let battr = get_option::<Vec<CreativeAttribute>>(map, "battr")?;
                let maxextended = get_option::<MaxExtendedAdDuration>(map, "maxextended")?;
                let minbitrate = get_option::<i32>(map, "minbitrate")?;
                let maxbitrate = get_option::<i32>(map, "maxbitrate")?;
                let delivery = get_option::<Vec<ContentDeliveryMethod>>(map, "delivery")?;
                let companionad = get_option::<Vec<Banner>>(map, "companionad")?;
                let api = get_option::<Vec<ApiFramework>>(map, "api")?;
                let companiontype = get_option::<Vec<CompanionType>>(map, "companiontype")?;
                let maxseq = get_option::<i32>(map, "maxseq")?;
                let feed = get_option::<FeedType>(map, "feed")?;
                let stitched = get_option::<bool>(map, "stitched")?;
                let nvol = get_option::<VolumeNormalizationMode>(map, "nvol")?;
                let ext = get_option::<serde_json::Map<String, Value>>(map, "ext")?;
                Ok(Audio {
                    mimes, minduration, maxduration, protocols, startdelay, sequence, battr,
                    maxextended, minbitrate, maxbitrate, delivery, companionad, api, companiontype,
                    maxseq, feed, stitched, nvol, ext,
                })
            },
        }
    }

    proof fn round_trip(m: AudioView) {
        lemma_members(m);
        let members = m.members();
        lemma_required::<Vec<String>>(members, "mimes"@, m.mimes);
        lemma_optional::<i32>(members, "minduration"@, m.minduration);
        lemma_optional::<i32>(members, "maxduration"@, m.maxduration);
        lemma_optional::<Vec<Protocol>>(members, "protocols"@, m.protocols);
        lemma_optional::<StartDelay>(members, "startdelay"@, m.startdelay);
        lemma_optional::<i32>(members, "sequence"@, m.sequence);
        lemma_optional::<Vec<CreativeAttribute>>(members, "battr"@, m.battr);
        lemma_optional::<MaxExtendedAdDuration>(members, "maxextended"@, m.maxextended);
        lemma_optional::<i32>(members, "minbitrate"@, m.minbitrate);
        lemma_optional::<i32>(members, "maxbitrate"@, m.maxbitrate);
        lemma_optional::<Vec<ContentDeliveryMethod>>(members, "delivery"@, m.delivery);
        lemma_optional::<Vec<Banner>>(members, "companionad"@, m.companionad);
        lemma_optional::<Vec<ApiFramework>>(members, "api"@, m.api);
        lemma_optional::<Vec<CompanionType>>(members, "companiontype"@, m.companiontype);
        lemma_optional::<i32>(members, "maxseq"@, m.maxseq);
        lemma_optional::<FeedType>(members, "feed"@, m.feed);
        lemma_optional::<bool>(members, "stitched"@, m.stitched);
        lemma_optional::<VolumeNormalizationMode>(members, "nvol"@, m.nvol);
        lemma_optional::<serde_json::Map<String, Value>>(members, "ext"@, m.ext);
    }

    proof fn decoded_valid(json: Json) {
        if let Json::Object(members) = json {
            lemma_optional_valid::<StartDelay>(members, "startdelay"@);
            lemma_optional_valid::<MaxExtendedAdDuration>(members, "maxextended"@);
            lemma_optional_valid::<Vec<Banner>>(members, "companionad"@);
        }
    }
}

/// A default value is encoded to the least document: its required members, and no other.
pub proof fn default_is_minimal()
    ensures
        Audio::encoded(AudioView::default()) == Json::Object(
            seq![
                ("mimes"@, Json::Array(Seq::empty())),
            ],
        ),
{
    reveal(with);
    reveal(with_some);
    let d = AudioView::default();
    let m = Seq::<(Seq<char>, Json)>::empty();
    assert(encoded_items::<String>(d.mimes) =~= Seq::empty());
    lemma_insert_fresh(m, "mimes"@, <Vec<String> as Codec>::encoded(d.mimes));
    let m = m.push(("mimes"@, <Vec<String> as Codec>::encoded(d.mimes)));
    assert(d.members() == m);
    assert(m =~= seq![
        ("mimes"@, Json::Array(Seq::empty())),
    ]);
}

} // verus!
