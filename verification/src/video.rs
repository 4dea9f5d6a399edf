//! The Video object (OpenRTB 2.5, section 3.2.7).

use vstd::prelude::*;
use serde_json::Value;
use crate::ad_position::AdPosition;
use crate::api_framework::ApiFramework;
use crate::banner::{Banner, BannerView};
use crate::codec::{
    Codec, current_option, defaulted, encoded_items, get, get_option, get_or, lemma_defaulted,
    lemma_defaulted_valid, lemma_lookup_with, lemma_lookup_with_some, lemma_lookup_with_unless,
    lemma_optional, lemma_optional_valid, lemma_required, model_of_option, optional, put,
    put_some, put_unless, required, valid_option, with, with_some, with_unless, written,
    written_unless,
};
use crate::companion_type::CompanionType;
use crate::content_delivery_method::ContentDeliveryMethod;
use crate::creative_attribute::CreativeAttribute;
use crate::error::{Error, ErrorView};
use crate::json::{Json, Members, lemma_insert_fresh, lemma_lookup_empty, lookup};
use crate::max_extended_ad_duration::MaxExtendedAdDuration;
use crate::playback_cessation_mode::PlaybackCessationMode;
use crate::playback_method::PlaybackMethod;
use crate::protocol::Protocol;
use crate::start_delay::StartDelay;
use crate::value::value_from_map;
use crate::video_linearity::VideoLinearity;
use crate::video_placement_type::VideoPlacementType;

verus! {

/// Video (OpenRTB 2.5, section 3.2.7).
///
/// This object represents an in-stream video impression. Many of the fields are non-essential
/// for minimally viable transactions, but are included to offer fine control when needed. Video
/// in OpenRTB generally assumes compliance with the VAST standard. As such, the notion of
/// companion ads is supported by optionally including an array of Banner objects (refer to the
/// Banner object in Section 3.2.6) that define these companion ads.
///
/// The presence of a Video as a subordinate of the Imp object indicates that this impression is
/// offered as a video type impression. At the publisher's discretion, that same impression may
/// also be offered as banner, audio, and/or native by also including as Imp subordinates
/// objects of those types. However, any given bid for the impression must conform to one of the
/// offered types.
#[derive(Clone, Debug, PartialEq)]
pub struct Video {
    /// Content MIME types supported (e.g., "video/x-ms-wmv", "video/mp4"). Required.
    pub mimes: Vec<String>,
    /// Minimum video ad duration in seconds.
    pub minduration: Option<i32>,
    /// Maximum video ad duration in seconds.
    pub maxduration: Option<i32>,
    /// Array of supported video protocols. Refer to List 5.8. At least one supported protocol
    /// must be specified in either the protocol or protocols attribute.
    pub protocols: Option<Vec<Protocol>>,
    /// Width of the video player in device independent pixels (DIPS).
    pub w: Option<i32>,
    /// Height of the video player in device independent pixels (DIPS).
    pub h: Option<i32>,
    /// Indicates the start delay in seconds for pre-roll, mid-roll, or post-roll ad placements.
    /// Refer to List 5.12 for additional generic values.
    pub startdelay: Option<StartDelay>,
    /// Placement type for the impression. Refer to List 5.9.
    pub placement: Option<VideoPlacementType>,
    /// Indicates if the impression must be linear, nonlinear, etc. If none specified, assume
    /// all are allowed. Refer to List 5.7.
    pub linearity: Option<VideoLinearity>,
    /// Indicates if the player will allow the video to be skipped, where 0 = no, 1 = yes. If a
    /// bidder sends markup/creative that is itself skippable, the Bid object should include the
    /// attr array with an element of 16 indicating skippable video. Refer to List 5.3.
    pub skip: Option<bool>,
    /// Videos of total duration greater than this number of seconds can be skippable; only
    /// applicable if the ad is skippable. Left out of the document when it has its default, 0.
    pub skipmin: i32,
    /// Number of seconds a video must play before skipping is enabled; only applicable if the
    /// ad is skippable. Left out of the document when it has its default, 0.
    pub skipafter: i32,
    /// If multiple ad impressions are offered in the same bid request, the sequence number will
    /// allow for the coordinated delivery of multiple creatives.
    pub sequence: Option<i32>,
    /// Blocked creative attributes. Refer to List 5.3.
    pub battr: Option<Vec<CreativeAttribute>>,
    /// Maximum extended ad duration if extension is allowed. If blank or 0, extension is not
    /// allowed. If -1, extension is allowed, and there is no time limit imposed. If greater
    /// than 0, then the value represents the number of seconds of extended play supported
    /// beyond the maxduration value.
    pub maxextended: MaxExtendedAdDuration,
    /// Minimum bit rate in Kbps.
    pub minbitrate: Option<i32>,
    /// Maximum bit rate in Kbps.
    pub maxbitrate: Option<i32>,
    /// Indicates if letter-boxing of 4:3 content into a 16:9 window is allowed, where 0 = no, 1
    /// = yes. Left out of the document when it has its default, 1.
    pub boxingallowed: bool,
    /// Playback methods that may be in use. If none are specified, any method may be used.
    /// Refer to List 5.10. Only one method is typically used in practice. It is strongly
    /// advised to use only the first element of this array in preparation for this change.
    pub playbackmethod: Option<Vec<PlaybackMethod>>,
    /// The event that causes playback to end. Refer to List 5.11.
    pub playbackend: Option<PlaybackCessationMode>,
    /// Supported delivery methods (e.g., streaming, progressive). If none specified, assume all
    /// are supported. Refer to List 5.15.
    pub delivery: Option<Vec<ContentDeliveryMethod>>,
    /// Ad position on screen. Refer to List 5.4.
    pub pos: Option<AdPosition>,
    /// Array of Banner objects (Section 3.2.6) if companion ads are available.
    pub companionad: Option<Vec<Banner>>,
    /// List of supported API frameworks for this impression. Refer to List 5.6. If an API is
    /// not explicitly listed, it is assumed not to be supported.
    pub api: Option<Vec<ApiFramework>>,
    /// Supported VAST companion ad types. Refer to List 5.14. Recommended if companion Banner
    /// objects are included via the companionad array. If one of these banners will be rendered
    /// as an end-card, this can be specified using the vcm attribute with the particular banner
    /// (Section 3.2.6).
    pub companiontype: Option<Vec<CompanionType>>,
    /// Placeholder for exchange-specific extensions to OpenRTB.
    pub ext: Option<serde_json::Map<String, Value>>,
}

/// The model of a [`Video`]: the same fields, as plain values.
pub struct VideoView {
    pub mimes: Seq<Seq<char>>,
    pub minduration: Option<i32>,
    pub maxduration: Option<i32>,
    pub protocols: Option<Seq<Protocol>>,
    pub w: Option<i32>,
    pub h: Option<i32>,
    pub startdelay: Option<StartDelay>,
    pub placement: Option<VideoPlacementType>,
    pub linearity: Option<VideoLinearity>,
    pub skip: Option<bool>,
    pub skipmin: i32,
    pub skipafter: i32,
    pub sequence: Option<i32>,
    pub battr: Option<Seq<CreativeAttribute>>,
    pub maxextended: MaxExtendedAdDuration,
    pub minbitrate: Option<i32>,
    pub maxbitrate: Option<i32>,
    pub boxingallowed: bool,
    pub playbackmethod: Option<Seq<PlaybackMethod>>,
    pub playbackend: Option<PlaybackCessationMode>,
    pub delivery: Option<Seq<ContentDeliveryMethod>>,
    pub pos: Option<AdPosition>,
    pub companionad: Option<Seq<BannerView>>,
    pub api: Option<Seq<ApiFramework>>,
    pub companiontype: Option<Seq<CompanionType>>,
    pub ext: Option<Members>,
}

impl VideoView {
    /// The value that [`Video::default`] stands for.
    pub open spec fn default() -> VideoView {
        VideoView {
            mimes: Seq::<Seq<char>>::empty(),
            minduration: None,
            maxduration: None,
            protocols: None,
            w: None,
            h: None,
            startdelay: None,
            placement: None,
            linearity: None,
            skip: None,
            skipmin: 0,
            skipafter: 0,
            sequence: None,
            battr: None,
            maxextended: MaxExtendedAdDuration::NotAllowed,
            minbitrate: None,
            maxbitrate: None,
            boxingallowed: true,
            playbackmethod: None,
            playbackend: None,
            delivery: None,
            pos: None,
            companionad: None,
            api: None,
            companiontype: None,
            ext: None,
        }
    }

    /// Whether encoding this value and decoding it again yields it: each part of it is
    /// valid.
    pub open spec fn valid(self) -> bool {
        &&& valid_option::<StartDelay>(self.startdelay)
        &&& <MaxExtendedAdDuration as Codec>::valid(self.maxextended)
        &&& valid_option::<Vec<Banner>>(self.companionad)
    }

    /// Whether no deprecated field is set in this value, at any depth.
    pub open spec fn current(self) -> bool {
        &&& current_option::<Vec<Banner>>(self.companionad)
    }

    /// The members that this value is encoded to, in order.
    pub open spec fn members(self) -> Members {
        let m = Seq::<(Seq<char>, Json)>::empty();
        let m = with::<Vec<String>>(m, "mimes"@, self.mimes);
        let m = with_some::<i32>(m, "minduration"@, self.minduration);
        let m = with_some::<i32>(m, "maxduration"@, self.maxduration);
        let m = with_some::<Vec<Protocol>>(m, "protocols"@, self.protocols);
        let m = with_some::<i32>(m, "w"@, self.w);
        let m = with_some::<i32>(m, "h"@, self.h);
        let m = with_some::<StartDelay>(m, "startdelay"@, self.startdelay);
        let m = with_some::<VideoPlacementType>(m, "placement"@, self.placement);
        let m = with_some::<VideoLinearity>(m, "linearity"@, self.linearity);
        let m = with_some::<bool>(m, "skip"@, self.skip);
        let m = with_unless::<i32>(m, "skipmin"@, self.skipmin, self.skipmin == 0);
        let m = with_unless::<i32>(m, "skipafter"@, self.skipafter, self.skipafter == 0);
        let m = with_some::<i32>(m, "sequence"@, self.sequence);
        let m = with_some::<Vec<CreativeAttribute>>(m, "battr"@, self.battr);
        let m = with_unless::<MaxExtendedAdDuration>(
            m,
            "maxextended"@,
            self.maxextended,
            self.maxextended == MaxExtendedAdDuration::NotAllowed,
        );
        let m = with_some::<i32>(m, "minbitrate"@, self.minbitrate);
        let m = with_some::<i32>(m, "maxbitrate"@, self.maxbitrate);
        let m = with_unless::<bool>(m, "boxingallowed"@, self.boxingallowed, self.boxingallowed);
        let m = with_some::<Vec<PlaybackMethod>>(m, "playbackmethod"@, self.playbackmethod);
        let m = with_some::<PlaybackCessationMode>(m, "playbackend"@, self.playbackend);
        let m = with_some::<Vec<ContentDeliveryMethod>>(m, "delivery"@, self.delivery);
        let m = with_some::<AdPosition>(m, "pos"@, self.pos);
        let m = with_some::<Vec<Banner>>(m, "companionad"@, self.companionad);
        let m = with_some::<Vec<ApiFramework>>(m, "api"@, self.api);
        let m = with_some::<Vec<CompanionType>>(m, "companiontype"@, self.companiontype);
        let m = with_some::<serde_json::Map<String, Value>>(m, "ext"@, self.ext);
        m
    }

    /// What decoding an object of these members yields: the value, or the error of the
    /// first field, in the order of the fields, whose member is not accepted.
    pub open spec fn of_members(members: Members) -> Result<VideoView, ErrorView> {
        let mimes = required::<Vec<String>>(members, "mimes"@);
        let minduration = optional::<i32>(members, "minduration"@);
        let maxduration = optional::<i32>(members, "maxduration"@);
        let protocols = optional::<Vec<Protocol>>(members, "protocols"@);
        let w = optional::<i32>(members, "w"@);
        let h = optional::<i32>(members, "h"@);
        let startdelay = optional::<StartDelay>(members, "startdelay"@);
        let placement = optional::<VideoPlacementType>(members, "placement"@);
        let linearity = optional::<VideoLinearity>(members, "linearity"@);
        let skip = optional::<bool>(members, "skip"@);
        let skipmin = defaulted::<i32>(members, "skipmin"@, 0);
        let skipafter = defaulted::<i32>(members, "skipafter"@, 0);
        let sequence = optional::<i32>(members, "sequence"@);
        let battr = optional::<Vec<CreativeAttribute>>(members, "battr"@);
        let maxextended = defaulted::<MaxExtendedAdDuration>(
            members,
            "maxextended"@,
            MaxExtendedAdDuration::NotAllowed,
        );
        let minbitrate = optional::<i32>(members, "minbitrate"@);
        let maxbitrate = optional::<i32>(members, "maxbitrate"@);
        let boxingallowed = defaulted::<bool>(members, "boxingallowed"@, true);
        let playbackmethod = optional::<Vec<PlaybackMethod>>(members, "playbackmethod"@);
        let playbackend = optional::<PlaybackCessationMode>(members, "playbackend"@);
        let delivery = optional::<Vec<ContentDeliveryMethod>>(members, "delivery"@);
        let pos = optional::<AdPosition>(members, "pos"@);
        let companionad = optional::<Vec<Banner>>(members, "companionad"@);
        let api = optional::<Vec<ApiFramework>>(members, "api"@);
        let companiontype = optional::<Vec<CompanionType>>(members, "companiontype"@);
        let ext = optional::<serde_json::Map<String, Value>>(members, "ext"@);
        if mimes is Err {
            Err(mimes->Err_0)
        } else if minduration is Err {
            Err(minduration->Err_0)
        } else if maxduration is Err {
            Err(maxduration->Err_0)
        } else if protocols is Err {
            Err(protocols->Err_0)
        } else if w is Err {
            Err(w->Err_0)
        } else if h is Err {
            Err(h->Err_0)
        } else if startdelay is Err {
            Err(startdelay->Err_0)
        } else if placement is Err {
            Err(placement->Err_0)
        } else if linearity is Err {
            Err(linearity->Err_0)
        } else if skip is Err {
            Err(skip->Err_0)
        } else if skipmin is Err {
            Err(skipmin->Err_0)
        } else if skipafter is Err {
            Err(skipafter->Err_0)
        } else if sequence is Err {
            Err(sequence->Err_0)
        } else if battr is Err {
            Err(battr->Err_0)
        } else if maxextended is Err {
            Err(maxextended->Err_0)
        } else if minbitrate is Err {
            Err(minbitrate->Err_0)
        } else if maxbitrate is Err {
            Err(maxbitrate->Err_0)
        } else if boxingallowed is Err {
            Err(boxingallowed->Err_0)
        } else if playbackmethod is Err {
            Err(playbackmethod->Err_0)
        } else if playbackend is Err {
            Err(playbackend->Err_0)
        } else if delivery is Err {
            Err(delivery->Err_0)
        } else if pos is Err {
            Err(pos->Err_0)
        } else if companionad is Err {
            Err(companionad->Err_0)
        } else if api is Err {
            Err(api->Err_0)
        } else if companiontype is Err {
            Err(companiontype->Err_0)
        } else if ext is Err {
            Err(ext->Err_0)
        } else {
            Ok(VideoView {
                mimes: mimes->Ok_0,
                minduration: minduration->Ok_0,
                maxduration: maxduration->Ok_0,
                protocols: protocols->Ok_0,
                w: w->Ok_0,
                h: h->Ok_0,
                startdelay: startdelay->Ok_0,
                placement: placement->Ok_0,
                linearity: linearity->Ok_0,
                skip: skip->Ok_0,
                skipmin: skipmin->Ok_0,
                skipafter: skipafter->Ok_0,
                sequence: sequence->Ok_0,
                battr: battr->Ok_0,
                maxextended: maxextended->Ok_0,
                minbitrate: minbitrate->Ok_0,
                maxbitrate: maxbitrate->Ok_0,
                boxingallowed: boxingallowed->Ok_0,
                playbackmethod: playbackmethod->Ok_0,
                playbackend: playbackend->Ok_0,
                delivery: delivery->Ok_0,
                pos: pos->Ok_0,
                companionad: companionad->Ok_0,
                api: api->Ok_0,
                companiontype: companiontype->Ok_0,
                ext: ext->Ok_0,
            })
        }
    }
}

/// The default of `boxingallowed`: letter-boxing is allowed.
pub fn default_boxingallowed() -> (r: bool)
    ensures
        r,
{
    true
}

/// Whether `boxingallowed` has its default.
pub fn is_default_boxingallowed(v: &bool) -> (r: bool)
    ensures
        r == *v,
{
    *v == default_boxingallowed()
}

impl Default for Video {
    /// The value whose optional fields are absent and whose other fields have their
    /// defaults.
    fn default() -> (r: Video)
        ensures
            r.model() == VideoView::default(),
    {
        let r = Video {
            mimes: Vec::new(),
            minduration: None,
            maxduration: None,
            protocols: None,
            w: None,
            h: None,
            startdelay: None,
            placement: None,
            linearity: None,
            skip: None,
            skipmin: 0,
            skipafter: 0,
            sequence: None,
            battr: None,
            maxextended: MaxExtendedAdDuration::NotAllowed,
            minbitrate: None,
            maxbitrate: None,
            boxingallowed: default_boxingallowed(),
            playbackmethod: None,
            playbackend: None,
            delivery: None,
            pos: None,
            companionad: None,
            api: None,
            companiontype: None,
            ext: None,
        };
        assert(r.mimes.model() =~= Seq::empty());
        r
    }
}

/// The lengths of the keys, and the letters that tell keys of one length apart: no two
/// keys are the same.
proof fn lemma_keys()
    ensures
        "mimes"@.len() == 5 && "mimes"@[0] == 'm',
        "minduration"@.len() == 11 && "minduration"@[1] == 'i' && "minduration"@[3] == 'd',
        "maxduration"@.len() == 11 && "maxduration"@[1] == 'a' && "maxduration"@[3] == 'd',
        "protocols"@.len() == 9 && "protocols"@[1] == 'r',
        "w"@.len() == 1 && "w"@[0] == 'w',
        "h"@.len() == 1 && "h"@[0] == 'h',
        "startdelay"@.len() == 10 && "startdelay"@[1] == 't',
        "placement"@.len() == 9 && "placement"@[1] == 'l',
        "linearity"@.len() == 9 && "linearity"@[1] == 'i',
        "skip"@.len() == 4,
        "skipmin"@.len() == 7,
        "skipafter"@.len() == 9 && "skipafter"@[1] == 'k',
        "sequence"@.len() == 8 && "sequence"@[0] == 's',
        "battr"@.len() == 5 && "battr"@[0] == 'b',
        "maxextended"@.len() == 11 && "maxextended"@[1] == 'a' && "maxextended"@[3] == 'e',
        "minbitrate"@.len() == 10 && "minbitrate"@[1] == 'i',
        "maxbitrate"@.len() == 10 && "maxbitrate"@[1] == 'a',
        "boxingallowed"@.len() == 13 && "boxingallowed"@[0] == 'b',
        "playbackmethod"@.len() == 14,
        "playbackend"@.len() == 11 && "playbackend"@[1] == 'l' && "playbackend"@[3] == 'y',
        "delivery"@.len() == 8 && "delivery"@[0] == 'd',
        "pos"@.len() == 3 && "pos"@[0] == 'p',
        "companionad"@.len() == 11 && "companionad"@[1] == 'o' && "companionad"@[3] == 'p',
        "api"@.len() == 3 && "api"@[0] == 'a',
        "companiontype"@.len() == 13 && "companiontype"@[0] == 'c',
        "ext"@.len() == 3 && "ext"@[0] == 'e',
{
    reveal_strlit("mimes");
    reveal_strlit("minduration");
    reveal_strlit("maxduration");
    reveal_strlit("protocols");
    reveal_strlit("w");
    reveal_strlit("h");
    reveal_strlit("startdelay");
    reveal_strlit("placement");
    reveal_strlit("linearity");
    reveal_strlit("skip");
    reveal_strlit("skipmin");
    reveal_strlit("skipafter");
    reveal_strlit("sequence");
    reveal_strlit("battr");
    reveal_strlit("maxextended");
    reveal_strlit("minbitrate");
    reveal_strlit("maxbitrate");
    reveal_strlit("boxingallowed");
    reveal_strlit("playbackmethod");
    reveal_strlit("playbackend");
    reveal_strlit("delivery");
    reveal_strlit("pos");
    reveal_strlit("companionad");
    reveal_strlit("api");
    reveal_strlit("companiontype");
    reveal_strlit("ext");
}

/// What is found under each key among the members that a value is encoded to.
proof fn lemma_members(m: VideoView)
    ensures
        lookup(m.members(), "mimes"@) == Some(<Vec<String> as Codec>::encoded(m.mimes)),
        lookup(m.members(), "minduration"@) == written::<i32>(m.minduration),
        lookup(m.members(), "maxduration"@) == written::<i32>(m.maxduration),
        lookup(m.members(), "protocols"@) == written::<Vec<Protocol>>(m.protocols),
        lookup(m.members(), "w"@) == written::<i32>(m.w),
        lookup(m.members(), "h"@) == written::<i32>(m.h),
        lookup(m.members(), "startdelay"@) == written::<StartDelay>(m.startdelay),
        lookup(m.members(), "placement"@) == written::<VideoPlacementType>(m.placement),
        lookup(m.members(), "linearity"@) == written::<VideoLinearity>(m.linearity),
        lookup(m.members(), "skip"@) == written::<bool>(m.skip),
        lookup(m.members(), "skipmin"@) == written_unless::<i32>(m.skipmin, m.skipmin == 0),
        lookup(m.members(), "skipafter"@) == written_unless::<i32>(m.skipafter, m.skipafter == 0),
        lookup(m.members(), "sequence"@) == written::<i32>(m.sequence),
        lookup(m.members(), "battr"@) == written::<Vec<CreativeAttribute>>(m.battr),
        lookup(m.members(), "maxextended"@) == written_unless::<MaxExtendedAdDuration>(
            m.maxextended,
            m.maxextended == MaxExtendedAdDuration::NotAllowed,
        ),
        lookup(m.members(), "minbitrate"@) == written::<i32>(m.minbitrate),
        lookup(m.members(), "maxbitrate"@) == written::<i32>(m.maxbitrate),
        lookup(m.members(), "boxingallowed"@) == written_unless::<bool>(
            m.boxingallowed,
            m.boxingallowed,
        ),
        lookup(m.members(), "playbackmethod"@) == written::<Vec<PlaybackMethod>>(m.playbackmethod),
        lookup(m.members(), "playbackend"@) == written::<PlaybackCessationMode>(m.playbackend),
        lookup(m.members(), "delivery"@) == written::<Vec<ContentDeliveryMethod>>(m.delivery),
        lookup(m.members(), "pos"@) == written::<AdPosition>(m.pos),
        lookup(m.members(), "companionad"@) == written::<Vec<Banner>>(m.companionad),
        lookup(m.members(), "api"@) == written::<Vec<ApiFramework>>(m.api),
        lookup(m.members(), "companiontype"@) == written::<Vec<CompanionType>>(m.companiontype),
        lookup(m.members(), "ext"@) == written::<serde_json::Map<String, Value>>(m.ext),
{
    broadcast use {lemma_lookup_with, lemma_lookup_with_some, lemma_lookup_with_unless};
    lemma_keys();
    assert forall|key: Seq<char>| lookup(Seq::empty(), key) is None by {
        lemma_lookup_empty(key);
    }
}

impl Codec for Video {
    type Model = VideoView;

    open spec fn model(&self) -> VideoView {
        VideoView {
            mimes: self.mimes.model(),
            minduration: model_of_option::<i32>(self.minduration),
            maxduration: model_of_option::<i32>(self.maxduration),
            protocols: model_of_option::<Vec<Protocol>>(self.protocols),
            w: model_of_option::<i32>(self.w),
            h: model_of_option::<i32>(self.h),
            startdelay: model_of_option::<StartDelay>(self.startdelay),
            placement: model_of_option::<VideoPlacementType>(self.placement),
            linearity: model_of_option::<VideoLinearity>(self.linearity),
            skip: model_of_option::<bool>(self.skip),
            skipmin: self.skipmin.model(),
            skipafter: self.skipafter.model(),
            sequence: model_of_option::<i32>(self.sequence),
            battr: model_of_option::<Vec<CreativeAttribute>>(self.battr),
            maxextended: self.maxextended.model(),
            minbitrate: model_of_option::<i32>(self.minbitrate),
            maxbitrate: model_of_option::<i32>(self.maxbitrate),
            boxingallowed: self.boxingallowed.model(),
            playbackmethod: model_of_option::<Vec<PlaybackMethod>>(self.playbackmethod),
            playbackend: model_of_option::<PlaybackCessationMode>(self.playbackend),
            delivery: model_of_option::<Vec<ContentDeliveryMethod>>(self.delivery),
            pos: model_of_option::<AdPosition>(self.pos),
            companionad: model_of_option::<Vec<Banner>>(self.companionad),
            api: model_of_option::<Vec<ApiFramework>>(self.api),
            companiontype: model_of_option::<Vec<CompanionType>>(self.companiontype),
            ext: model_of_option::<serde_json::Map<String, Value>>(self.ext),
        }
    }

    open spec fn valid(m: VideoView) -> bool {
        m.valid()
    }

    open spec fn current(m: VideoView) -> bool {
        m.current()
    }

    open spec fn encoded(m: VideoView) -> Json {
        Json::Object(m.members())
    }

    open spec fn decoded(json: Json) -> Result<VideoView, ErrorView> {
        match json {
            Json::Object(members) => VideoView::of_members(members),
            _ => Err(ErrorView::shape(json, "an object"@)),
        }
    }

    fn to_value(&self) -> (value: Value) {
        let mut map = serde_json::Map::new();
        put::<Vec<String>>(&mut map, "mimes", &self.mimes);
        put_some::<i32>(&mut map, "minduration", &self.minduration);
        put_some::<i32>(&mut map, "maxduration", &self.maxduration);
        put_some::<Vec<Protocol>>(&mut map, "protocols", &self.protocols);
        put_some::<i32>(&mut map, "w", &self.w);
        put_some::<i32>(&mut map, "h", &self.h);
        put_some::<StartDelay>(&mut map, "startdelay", &self.startdelay);
        put_some::<VideoPlacementType>(&mut map, "placement", &self.placement);
        put_some::<VideoLinearity>(&mut map, "linearity", &self.linearity);
        put_some::<bool>(&mut map, "skip", &self.skip);
        put_unless::<i32>(&mut map, "skipmin", &self.skipmin, self.skipmin == 0);
        put_unless::<i32>(&mut map, "skipafter", &self.skipafter, self.skipafter == 0);
        put_some::<i32>(&mut map, "sequence", &self.sequence);
        put_some::<Vec<CreativeAttribute>>(&mut map, "battr", &self.battr);
        put_unless::<MaxExtendedAdDuration>(
            &mut map,
            "maxextended",
            &self.maxextended,
            self.maxextended.is_default(),
        );
        put_some::<i32>(&mut map, "minbitrate", &self.minbitrate);
        put_some::<i32>(&mut map, "maxbitrate", &self.maxbitrate);
        put_unless::<bool>(
            &mut map,
            "boxingallowed",
            &self.boxingallowed,
            is_default_boxingallowed(&self.boxingallowed),
        );
        put_some::<Vec<PlaybackMethod>>(&mut map, "playbackmethod", &self.playbackmethod);
        put_some::<PlaybackCessationMode>(&mut map, "playbackend", &self.playbackend);
        put_some::<Vec<ContentDeliveryMethod>>(&mut map, "delivery", &self.delivery);
        put_some::<AdPosition>(&mut map, "pos", &self.pos);
        put_some::<Vec<Banner>>(&mut map, "companionad", &self.companionad);
        put_some::<Vec<ApiFramework>>(&mut map, "api", &self.api);
        put_some::<Vec<CompanionType>>(&mut map, "companiontype", &self.companiontype);
        put_some::<serde_json::Map<String, Value>>(&mut map, "ext", &self.ext);
        value_from_map(map)
    }

    fn from_value(value: &Value) -> (r: Result<Video, Error>) {
        match value.as_object() {
            None => Err(Error::shape(value, "an object")),
            Some(map) => {
                let mimes = get::<Vec<String>>(map, "mimes")?;
                let minduration = get_option::<i32>(map, "minduration")?;
                let maxduration = get_option::<i32>(map, "maxduration")?;
                let protocols = get_option::<Vec<Protocol>>(map, "protocols")?;
                let w = get_option::<i32>(map, "w")?;
                let h = get_option::<i32>(map, "h")?;
                let startdelay = get_option::<StartDelay>(map, "startdelay")?;
                let placement = get_option::<VideoPlacementType>(map, "placement")?;
                let linearity = get_option::<VideoLinearity>(map, "linearity")?;
                let skip = get_option::<bool>(map, "skip")?;
                let skipmin = get_or::<i32>(map, "skipmin", 0)?;
                let skipafter = get_or::<i32>(map, "skipafter", 0)?;
                let sequence = get_option::<i32>(map, "sequence")?;
                let battr = get_option::<Vec<CreativeAttribute>>(map, "battr")?;
                let maxextended = get_or::<MaxExtendedAdDuration>(
                    map,
                    "maxextended",
                    MaxExtendedAdDuration::NotAllowed,
                )?;
                let minbitrate = get_option::<i32>(map, "minbitrate")?;
                let maxbitrate = get_option::<i32>(map, "maxbitrate")?;
                let boxingallowed = get_or::<bool>(map, "boxingallowed", default_boxingallowed())?;
                let playbackmethod = get_option::<Vec<PlaybackMethod>>(map, "playbackmethod")?;
                let playbackend = get_option::<PlaybackCessationMode>(map, "playbackend")?;
                let delivery = get_option::<Vec<ContentDeliveryMethod>>(map, "delivery")?;
                let pos = get_option::<AdPosition>(map, "pos")?;
                let companionad = get_option::<Vec<Banner>>(map, "companionad")?;
                let api = get_option::<Vec<ApiFramework>>(map, "api")?;
                let companiontype = get_option::<Vec<CompanionType>>(map, "companiontype")?;
                let ext = get_option::<serde_json::Map<String, Value>>(map, "ext")?;
                Ok(Video {
                    mimes, minduration, maxduration, protocols, w, h, startdelay, placement,
                    linearity, skip, skipmin, skipafter, sequence, battr, maxextended, minbitrate,
                    maxbitrate, boxingallowed, playbackmethod, playbackend, delivery, pos,
                    companionad, api, companiontype, ext,
                })
            },
        }
    }

    proof fn round_trip(m: VideoView) {
        lemma_members(m);
        let members = m.members();
        lemma_required::<Vec<String>>(members, "mimes"@, m.mimes);
        lemma_optional::<i32>(members, "minduration"@, m.minduration);
        lemma_optional::<i32>(members, "maxduration"@, m.maxduration);
        lemma_optional::<Vec<Protocol>>(members, "protocols"@, m.protocols);
        lemma_optional::<i32>(members, "w"@, m.w);
        lemma_optional::<i32>(members, "h"@, m.h);
        lemma_optional::<StartDelay>(members, "startdelay"@, m.startdelay);
        lemma_optional::<VideoPlacementType>(members, "placement"@, m.placement);
        lemma_optional::<VideoLinearity>(members, "linearity"@, m.linearity);
        lemma_optional::<bool>(members, "skip"@, m.skip);
        lemma_defaulted::<i32>(members, "skipmin"@, m.skipmin, 0);
        lemma_defaulted::<i32>(members, "skipafter"@, m.skipafter, 0);
        lemma_optional::<i32>(members, "sequence"@, m.sequence);
        lemma_optional::<Vec<CreativeAttribute>>(members, "battr"@, m.battr);
        lemma_defaulted::<MaxExtendedAdDuration>(
            members,
            "maxextended"@,
            m.maxextended,
            MaxExtendedAdDuration::NotAllowed,
        );
        lemma_optional::<i32>(members, "minbitrate"@, m.minbitrate);
        lemma_optional::<i32>(members, "maxbitrate"@, m.maxbitrate);
        lemma_defaulted::<bool>(members, "boxingallowed"@, m.boxingallowed, true);
        lemma_optional::<Vec<PlaybackMethod>>(members, "playbackmethod"@, m.playbackmethod);
        lemma_optional::<PlaybackCessationMode>(members, "playbackend"@, m.playbackend);
        lemma_optional::<Vec<ContentDeliveryMethod>>(members, "delivery"@, m.delivery);
        lemma_optional::<AdPosition>(members, "pos"@, m.pos);
        lemma_optional::<Vec<Banner>>(members, "companionad"@, m.companionad);
        lemma_optional::<Vec<ApiFramework>>(members, "api"@, m.api);
        lemma_optional::<Vec<CompanionType>>(members, "companiontype"@, m.companiontype);
        lemma_optional::<serde_json::Map<String, Value>>(members, "ext"@, m.ext);
    }

    proof fn decoded_valid(json: Json) {
        if let Json::Object(members) = json {
            lemma_optional_valid::<StartDelay>(members, "startdelay"@);
            lemma_defaulted_valid::<MaxExtendedAdDuration>(
                members,
                "maxextended"@,
                MaxExtendedAdDuration::NotAllowed,
            );
            lemma_optional_valid::<Vec<Banner>>(members, "companionad"@);
        }
    }
}

/// A default value is encoded to the least document: its required members, and no other.
pub proof fn default_is_minimal()
    ensures
        Video::encoded(VideoView::default()) == Json::Object(
            seq![
                ("mimes"@, Json::Array(Seq::empty())),
            ],
        ),
{
    reveal(with);
    reveal(with_some);
    reveal(with_unless);
    let d = VideoView::default();
    let m = Seq::<(Seq<char>, Json)>::empty();
    assert(encoded_items::<String>(d.mimes) =~= Seq::empty());
    lemma_insert_fresh(m, "mimes"@, <Vec<String> as Codec>::encoded(d.mimes));
    let m = m.push(("mimes"@, <Vec<String> as Codec>::encoded(d.mimes)));
    assert(d.members() == m);
    assert(m =~= seq![
        ("mimes"@, Json::Array(Seq::empty())),
    ]);
}

} // verus!
