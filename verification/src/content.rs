//! The Content object (OpenRTB 2.5, section 3.2.16).

use vstd::prelude::*;
use serde_json::Value;
use crate::codec::{
    Codec, current_option, get_option, lemma_lookup_with, lemma_lookup_with_some,
    lemma_lookup_with_unless, lemma_optional, lemma_optional_valid, model_of_option, optional,
    put_some, valid_option, with_some, written,
};
use crate::content_category::ContentCategory;
use crate::content_context::ContentContext;
use crate::data::{Data, DataView};
use crate::error::{Error, ErrorView};
use crate::iqg_media_rating::IqgMediaRating;
use crate::json::{Json, Members, lemma_lookup_empty, lookup};
use crate::producer::{Producer, ProducerView};
use crate::production_quality::ProductionQuality;
use crate::value::value_from_map;

verus! {

/// Content (OpenRTB 2.5, section 3.2.16).
///
/// This object describes the content in which the impression will appear, which may be
/// syndicated or non- syndicated content. This object may be useful when syndicated content
/// contains impressions and does not necessarily match the publisher's general content. The
/// exchange might or might not have knowledge of the page where the content is running, as a
/// result of the syndication method. For example might be a video impression embedded in an
/// iframe on an unknown web property or device.
#[derive(Clone, Debug, PartialEq)]
pub struct Content {
    /// ID uniquely identifying the content.
    pub id: Option<String>,
    /// Episode number.
    pub episode: Option<i32>,
    /// Content title. Video Examples: "Search Committee" (television), "A New Hope" (movie), or
    /// "Endgame" (made for web). Non-Video Example: "Why an Antarctic Glacier Is Melting So
    /// Quickly" (Time magazine article).
    pub title: Option<String>,
    /// Content series. Video Examples: "The Office" (television), "Star Wars" (movie), or "Arby
    /// 'N' The Chief" (made for web). Non-Video Example: "Ecocentric" (Time Magazine blog).
    pub series: Option<String>,
    /// Content season (e.g., "Season 3").
    pub season: Option<String>,
    /// Artist credited with the content.
    pub artist: Option<String>,
    /// Genre that best describes the content (e.g., rock, pop, etc).
    pub genre: Option<String>,
    /// Album to which the content belongs; typically for audio.
    pub album: Option<String>,
    /// International Standard Recording Code conforming to ISO-3901.
    pub isrc: Option<String>,
    /// Details about the content Producer (Section 3.2.17).
    pub producer: Option<Producer>,
    pub url: Option<String>,
    /// Array of IAB content categories that describe the content producer. Refer to List 5.1.
    pub cat: Option<Vec<ContentCategory>>,
    /// Production quality. Refer to List 5.13.
    pub prodq: Option<ProductionQuality>,
    /// Video quality. Refer to List 5.13. Deprecated: read from a document, never written to
    /// one.
    pub videoquality: Option<ProductionQuality>,
    /// Type of content (game, video, text, etc.). Refer to List 5.18.
    pub context: Option<ContentContext>,
    /// Content rating (e.g., MPAA).
    pub contentrating: Option<String>,
    /// User rating of the content (e.g., number of stars, likes, etc.).
    pub userrating: Option<String>,
    /// Media rating per IQG guidelines. Refer to List 5.19.
    pub qagmediarating: Option<IqgMediaRating>,
    /// Comma separated list of keywords describing the content.
    pub keywords: Option<String>,
    /// 0 = not live, 1 = content is live (e.g., stream, live blog).
    pub livestream: Option<bool>,
    /// 0 = indirect, 1 = direct.
    pub sourcerelationship: Option<bool>,
    /// Length of content in seconds; appropriate for video or audio.
    pub len: Option<i32>,
    /// Content language using ISO-639-1-alpha-2.
    pub language: Option<String>,
    /// Indicator of whether or not the content is embeddable (e.g., an embeddable video
    /// player), where 0 = no, 1 = yes.
    pub embeddable: Option<bool>,
    /// Additional content data. Each Data object (Section 3.2.21) represents a different data
    /// source.
    pub data: Option<Vec<Data>>,
    /// Placeholder for exchange-specific extensions to OpenRTB.
    pub ext: Option<serde_json::Map<String, Value>>,
}

/// The model of a [`Content`]: the same fields, as plain values.
pub struct ContentView {
    pub id: Option<Seq<char>>,
    pub episode: Option<i32>,
    pub title: Option<Seq<char>>,
    pub series: Option<Seq<char>>,
    pub season: Option<Seq<char>>,
    pub artist: Option<Seq<char>>,
    pub genre: Option<Seq<char>>,
    pub album: Option<Seq<char>>,
    pub isrc: Option<Seq<char>>,
    pub producer: Option<ProducerView>,
    pub url: Option<Seq<char>>,
    pub cat: Option<Seq<ContentCategory>>,
    pub prodq: Option<ProductionQuality>,
    pub videoquality: Option<ProductionQuality>,
    pub context: Option<ContentContext>,
    pub contentrating: Option<Seq<char>>,
    pub userrating: Option<Seq<char>>,
    pub qagmediarating: Option<IqgMediaRating>,
    pub keywords: Option<Seq<char>>,
    pub livestream: Option<bool>,
    pub sourcerelationship: Option<bool>,
    pub len: Option<i32>,
    pub language: Option<Seq<char>>,
    pub embeddable: Option<bool>,
    pub data: Option<Seq<DataView>>,
    pub ext: Option<Members>,
}

impl ContentView {
    /// The value that [`Content::default`] stands for.
    pub open spec fn default() -> ContentView {
        ContentView {
            id: None,
            episode: None,
            title: None,
            series: None,
            season: None,
            artist: None,
            genre: None,
            album: None,
            isrc: None,
            producer: None,
            url: None,
            cat: None,
            prodq: None,
            videoquality: None,
            context: None,
            contentrating: None,
            userrating: None,
            qagmediarating: None,
            keywords: None,
            livestream: None,
            sourcerelationship: None,
            len: None,
            language: None,
            embeddable: None,
            data: None,
            ext: None,
        }
    }

    /// Whether encoding this value and decoding it again yields it: each part of it is
    /// valid, and no deprecated field is set.
    pub open spec fn valid(self) -> bool {
        &&& valid_option::<Producer>(self.producer)
        &&& self.videoquality is None
        &&& valid_option::<Vec<Data>>(self.data)
    }

    /// Whether no deprecated field is set in this value, at any depth.
    pub open spec fn current(self) -> bool {
        &&& current_option::<Producer>(self.producer)
        &&& self.videoquality is None
        &&& current_option::<Vec<Data>>(self.data)
    }

    /// The members that this value is encoded to, in order.
    pub open spec fn members(self) -> Members {
        let m = Seq::<(Seq<char>, Json)>::empty();
        let m = with_some::<String>(m, "id"@, self.id);
        let m = with_some::<i32>(m, "episode"@, self.episode);
        let m = with_some::<String>(m, "title"@, self.title);
        let m = with_some::<String>(m, "series"@, self.series);
        let m = with_some::<String>(m, "season"@, self.season);
        let m = with_some::<String>(m, "artist"@, self.artist);
        let m = with_some::<String>(m, "genre"@, self.genre);
        let m = with_some::<String>(m, "album"@, self.album);
        let m = with_some::<String>(m, "isrc"@, self.isrc);
        let m = with_some::<Producer>(m, "producer"@, self.producer);
        let m = with_some::<String>(m, "url"@, self.url);
        let m = with_some::<Vec<ContentCategory>>(m, "cat"@, self.cat);
        let m = with_some::<ProductionQuality>(m, "prodq"@, self.prodq);
        let m = with_some::<ContentContext>(m, "context"@, self.context);
        let m = with_some::<String>(m, "contentrating"@, self.contentrating);
        let m = with_some::<String>(m, "userrating"@, self.userrating);
        let m = with_some::<IqgMediaRating>(m, "qagmediarating"@, self.qagmediarating);
        let m = with_some::<String>(m, "keywords"@, self.keywords);
        let m = with_some::<bool>(m, "livestream"@, self.livestream);
        let m = with_some::<bool>(m, "sourcerelationship"@, self.sourcerelationship);
        let m = with_some::<i32>(m, "len"@, self.len);
        let m = with_some::<String>(m, "language"@, self.language);
        let m = with_some::<bool>(m, "embeddable"@, self.embeddable);
        let m = with_some::<Vec<Data>>(m, "data"@, self.data);
        let m = with_some::<serde_json::Map<String, Value>>(m, "ext"@, self.ext);
        m
    }

    /// What decoding an object of these members yields: the value, or the error of the
    /// first field, in the order of the fields, whose member is not accepted.
    pub open spec fn of_members(members: Members) -> Result<ContentView, ErrorView> {
        let id = optional::<String>(members, "id"@);
        let episode = optional::<i32>(members, "episode"@);
        let title = optional::<String>(members, "title"@);
        let series = optional::<String>(members, "series"@);
        let season = optional::<String>(members, "season"@);
        let artist = optional::<String>(members, "artist"@);
        let genre = optional::<String>(members, "genre"@);
        let album = optional::<String>(members, "album"@);
        let isrc = optional::<String>(members, "isrc"@);
        let producer = optional::<Producer>(members, "producer"@);
        let url = optional::<String>(members, "url"@);
        let cat = optional::<Vec<ContentCategory>>(members, "cat"@);
        let prodq = optional::<ProductionQuality>(members, "prodq"@);
        let videoquality = optional::<ProductionQuality>(members, "videoquality"@);
        let context = optional::<ContentContext>(members, "context"@);
        let contentrating = optional::<String>(members, "contentrating"@);
        let userrating = optional::<String>(members, "userrating"@);
        let qagmediarating = optional::<IqgMediaRating>(members, "qagmediarating"@);
        let keywords = optional::<String>(members, "keywords"@);
        let livestream = optional::<bool>(members, "livestream"@);
        let sourcerelationship = optional::<bool>(members, "sourcerelationship"@);
        let len = optional::<i32>(members, "len"@);
        let language = optional::<String>(members, "language"@);
        let embeddable = optional::<bool>(members, "embeddable"@);
        let data = optional::<Vec<Data>>(members, "data"@);
        let ext = optional::<serde_json::Map<String, Value>>(members, "ext"@);
        if id is Err {
            Err(id->Err_0)
        } else if episode is Err {
            Err(episode->Err_0)
        } else if title is Err {
            Err(title->Err_0)
        } else if series is Err {
            Err(series->Err_0)
        } else if season is Err {
            Err(season->Err_0)
        } else if artist is Err {
            Err(artist->Err_0)
        } else if genre is Err {
            Err(genre->Err_0)
        } else if album is Err {
            Err(album->Err_0)
        } else if isrc is Err {
            Err(isrc->Err_0)
        } else if producer is Err {
            Err(producer->Err_0)
        } else if url is Err {
            Err(url->Err_0)
        } else if cat is Err {
            Err(cat->Err_0)
        } else if prodq is Err {
            Err(prodq->Err_0)
        } else if videoquality is Err {
            Err(videoquality->Err_0)
        } else if context is Err {
            Err(context->Err_0)
        } else if contentrating is Err {
            Err(contentrating->Err_0)
        } else if userrating is Err {
            Err(userrating->Err_0)
        } else if qagmediarating is Err {
            Err(qagmediarating->Err_0)
        } else if keywords is Err {
            Err(keywords->Err_0)
        } else if livestream is Err {
            Err(livestream->Err_0)
        } else if sourcerelationship is Err {
            Err(sourcerelationship->Err_0)
        } else if len is Err {
            Err(len->Err_0)
        } else if language is Err {
            Err(language->Err_0)
        } else if embeddable is Err {
            Err(embeddable->Err_0)
        } else if data is Err {
            Err(data->Err_0)
        } else if ext is Err {
            Err(ext->Err_0)
        } else {
            Ok(ContentView {
                id: id->Ok_0,
                episode: episode->Ok_0,
                title: title->Ok_0,
                series: series->Ok_0,
                season: season->Ok_0,
                artist: artist->Ok_0,
                genre: genre->Ok_0,
                album: album->Ok_0,
                isrc: isrc->Ok_0,
                producer: producer->Ok_0,
                url: url->Ok_0,
                cat: cat->Ok_0,
                prodq: prodq->Ok_0,
                videoquality: videoquality->Ok_0,
                context: context->Ok_0,
                contentrating: contentrating->Ok_0,
                userrating: userrating->Ok_0,
                qagmediarating: qagmediarating->Ok_0,
                keywords: keywords->Ok_0,
                livestream: livestream->Ok_0,
                sourcerelationship: sourcerelationship->Ok_0,
                len: len->Ok_0,
                language: language->Ok_0,
                embeddable: embeddable->Ok_0,
                data: data->Ok_0,
                ext: ext->Ok_0,
            })
        }
    }
}

impl Default for Content {
    /// The value whose optional fields are absent and whose other fields have their
    /// defaults.
    fn default() -> (r: Content)
        ensures
            r.model() == ContentView::default(),
    {
        Content {
            id: None,
            episode: None,
            title: None,
            series: None,
            season: None,
            artist: None,
            genre: None,
            album: None,
            isrc: None,
            producer: None,
            url: None,
            cat: None,
            prodq: None,
            videoquality: None,
            context: None,
            contentrating: None,
            userrating: None,
            qagmediarating: None,
            keywords: None,
            livestream: None,
            sourcerelationship: None,
            len: None,
            language: None,
            embeddable: None,
            data: None,
            ext: None,
        }
    }
}

/// The lengths of the keys, and the letters that tell keys of one length apart: no two
/// keys are the same.
proof fn lemma_keys()
    ensures
        "id"@.len() == 2,
        "episode"@.len() == 7 && "episode"@[0] == 'e',
        "title"@.len() == 5 && "title"@[0] == 't',
        "series"@.len() == 6 && "series"@[2] == 'r',
        "season"@.len() == 6 && "season"@[2] == 'a',
        "artist"@.len() == 6 && "artist"@[2] == 't',
        "genre"@.len() == 5 && "genre"@[0] == 'g',
        "album"@.len() == 5 && "album"@[0] == 'a',
        "isrc"@.len() == 4 && "isrc"@[0] == 'i',
        "producer"@.len() == 8 && "producer"@[0] == 'p',
        "url"@.len() == 3 && "url"@[0] == 'u',
        "cat"@.len() == 3 && "cat"@[0] == 'c',
        "prodq"@.len() == 5 && "prodq"@[0] == 'p',
        "videoquality"@.len() == 12,
        "context"@.len() == 7 && "context"@[0] == 'c',
        "contentrating"@.len() == 13,
        "userrating"@.len() == 10 && "userrating"@[0] == 'u',
        "qagmediarating"@.len() == 14,
        "keywords"@.len() == 8 && "keywords"@[0] == 'k',
        "livestream"@.len() == 10 && "livestream"@[0] == 'l',
        "sourcerelationship"@.len() == 18,
        "len"@.len() == 3 && "len"@[0] == 'l',
        "language"@.len() == 8 && "language"@[0] == 'l',
        "embeddable"@.len() == 10 && "embeddable"@[0] == 'e',
        "data"@.len() == 4 && "data"@[0] == 'd',
        "ext"@.len() == 3 && "ext"@[0] == 'e',
{
    reveal_strlit("id");
    reveal_strlit("episode");
    reveal_strlit("title");
    reveal_strlit("series");
    reveal_strlit("season");
    reveal_strlit("artist");
    reveal_strlit("genre");
    reveal_strlit("album");
    reveal_strlit("isrc");
    reveal_strlit("producer");
    reveal_strlit("url");
    reveal_strlit("cat");
    reveal_strlit("prodq");
    reveal_strlit("videoquality");
    reveal_strlit("context");
    reveal_strlit("contentrating");
    reveal_strlit("userrating");
    reveal_strlit("qagmediarating");
    reveal_strlit("keywords");
    reveal_strlit("livestream");
    reveal_strlit("sourcerelationship");
    reveal_strlit("len");
    reveal_strlit("language");
    reveal_strlit("embeddable");
    reveal_strlit("data");
    reveal_strlit("ext");
}

/// What is found under each key among the members that a value is encoded to.
proof fn lemma_members(m: ContentView)
    ensures
        lookup(m.members(), "id"@) == written::<String>(m.id),
        lookup(m.members(), "episode"@) == written::<i32>(m.episode),
        lookup(m.members(), "title"@) == written::<String>(m.title),
        lookup(m.members(), "series"@) == written::<String>(m.series),
        lookup(m.members(), "season"@) == written::<String>(m.season),
        lookup(m.members(), "artist"@) == written::<String>(m.artist),
        lookup(m.members(), "genre"@) == written::<String>(m.genre),
        lookup(m.members(), "album"@) == written::<String>(m.album),
        lookup(m.members(), "isrc"@) == written::<String>(m.isrc),
        lookup(m.members(), "producer"@) == written::<Producer>(m.producer),
        lookup(m.members(), "url"@) == written::<String>(m.url),
        lookup(m.members(), "cat"@) == written::<Vec<ContentCategory>>(m.cat),
        lookup(m.members(), "prodq"@) == written::<ProductionQuality>(m.prodq),
        lookup(m.members(), "videoquality"@) is None,
        lookup(m.members(), "context"@) == written::<ContentContext>(m.context),
        lookup(m.members(), "contentrating"@) == written::<String>(m.contentrating),
        lookup(m.members(), "userrating"@) == written::<String>(m.userrating),
        lookup(m.members(), "qagmediarating"@) == written::<IqgMediaRating>(m.qagmediarating),
        lookup(m.members(), "keywords"@) == written::<String>(m.keywords),
        lookup(m.members(), "livestream"@) == written::<bool>(m.livestream),
        lookup(m.members(), "sourcerelationship"@) == written::<bool>(m.sourcerelationship),
        lookup(m.members(), "len"@) == written::<i32>(m.len),
        lookup(m.members(), "language"@) == written::<String>(m.language),
        lookup(m.members(), "embeddable"@) == written::<bool>(m.embeddable),
        lookup(m.members(), "data"@) == written::<Vec<Data>>(m.data),
        lookup(m.members(), "ext"@) == written::<serde_json::Map<String, Value>>(m.ext),
{
    broadcast use {lemma_lookup_with, lemma_lookup_with_some, lemma_lookup_with_unless};
    lemma_keys();
    assert forall|key: Seq<char>| lookup(Seq::empty(), key) is None by {
        lemma_lookup_empty(key);
    }
}

impl Codec for Content {
    type Model = ContentView;

    open spec fn model(&self) -> ContentView {
        ContentView {
            id: model_of_option::<String>(self.id),
            episode: model_of_option::<i32>(self.episode),
            title: model_of_option::<String>(self.title),
            series: model_of_option::<String>(self.series),
            season: model_of_option::<String>(self.season),
            artist: model_of_option::<String>(self.artist),
            genre: model_of_option::<String>(self.genre),
            album: model_of_option::<String>(self.album),
            isrc: model_of_option::<String>(self.isrc),
            producer: model_of_option::<Producer>(self.producer),
            url: model_of_option::<String>(self.url),
            cat: model_of_option::<Vec<ContentCategory>>(self.cat),
            prodq: model_of_option::<ProductionQuality>(self.prodq),
            videoquality: model_of_option::<ProductionQuality>(self.videoquality),
            context: model_of_option::<ContentContext>(self.context),
            contentrating: model_of_option::<String>(self.contentrating),
            userrating: model_of_option::<String>(self.userrating),
            qagmediarating: model_of_option::<IqgMediaRating>(self.qagmediarating),
            keywords: model_of_option::<String>(self.keywords),
            livestream: model_of_option::<bool>(self.livestream),
            sourcerelationship: model_of_option::<bool>(self.sourcerelationship),
            len: model_of_option::<i32>(self.len),
            language: model_of_option::<String>(self.language),
            embeddable: model_of_option::<bool>(self.embeddable),
            data: model_of_option::<Vec<Data>>(self.data),
            ext: model_of_option::<serde_json::Map<String, Value>>(self.ext),
        }
    }

    open spec fn valid(m: ContentView) -> bool {
        m.valid()
    }

    open spec fn current(m: ContentView) -> bool {
        m.current()
    }

    open spec fn encoded(m: ContentView) -> Json {
        Json::Object(m.members())
    }

    open spec fn decoded(json: Json) -> Result<ContentView, ErrorView> {
        match json {
            Json::Object(members) => ContentView::of_members(members),
            _ => Err(ErrorView::shape(json, "an object"@)),
        }
    }

    fn to_value(&self) -> (value: Value) {
        let mut map = serde_json::Map::new();
        put_some::<String>(&mut map, "id", &self.id);
        put_some::<i32>(&mut map, "episode", &self.episode);
        put_some::<String>(&mut map, "title", &self.title);
        put_some::<String>(&mut map, "series", &self.series);
        put_some::<String>(&mut map, "season", &self.season);
        put_some::<String>(&mut map, "artist", &self.artist);
        put_some::<String>(&mut map, "genre", &self.genre);
        put_some::<String>(&mut map, "album", &self.album);
        put_some::<String>(&mut map, "isrc", &self.isrc);
        put_some::<Producer>(&mut map, "producer", &self.producer);
        put_some::<String>(&mut map, "url", &self.url);
        put_some::<Vec<ContentCategory>>(&mut map, "cat", &self.cat);
        put_some::<ProductionQuality>(&mut map, "prodq", &self.prodq);
        put_some::<ContentContext>(&mut map, "context", &self.context);
        put_some::<String>(&mut map, "contentrating", &self.contentrating);
        put_some::<String>(&mut map, "userrating", &self.userrating);
        put_some::<IqgMediaRating>(&mut map, "qagmediarating", &self.qagmediarating);
        put_some::<String>(&mut map, "keywords", &self.keywords);
        put_some::<bool>(&mut map, "livestream", &self.livestream);
        put_some::<bool>(&mut map, "sourcerelationship", &self.sourcerelationship);
        put_some::<i32>(&mut map, "len", &self.len);
        put_some::<String>(&mut map, "language", &self.language);
        put_some::<bool>(&mut map, "embeddable", &self.embeddable);
        put_some::<Vec<Data>>(&mut map, "data", &self.data);
        put_some::<serde_json::Map<String, Value>>(&mut map, "ext", &self.ext);
        value_from_map(map)
    }

    fn from_value(value: &Value) -> (r: Result<Content, Error>) {
        match value.as_object() {
            None => Err(Error::shape(value, "an object")),
            Some(map) => {
                let id = get_option::<String>(map, "id")?;
                let episode = get_option::<i32>(map, "episode")?;
                let title = get_option::<String>(map, "title")?;
                let series = get_option::<String>(map, "series")?;
                let season = get_option::<String>(map, "season")?;
                let artist = get_option::<String>(map, "artist")?;
                let genre = get_option::<String>(map, "genre")?;
                let album = get_option::<String>(map, "album")?;
                let isrc = get_option::<String>(map, "isrc")?;
                let producer = get_option::<Producer>(map, "producer")?;
                let url = get_option::<String>(map, "url")?;
                let cat = get_option::<Vec<ContentCategory>>(map, "cat")?;
                let prodq = get_option::<ProductionQuality>(map, "prodq")?;
                let videoquality = get_option::<ProductionQuality>(map, "videoquality")?;
                let context = get_option::<ContentContext>(map, "context")?;
                let contentrating = get_option::<String>(map, "contentrating")?;
                let userrating = get_option::<String>(map, "userrating")?;
                let qagmediarating = get_option::<IqgMediaRating>(map, "qagmediarating")?;
                let keywords = get_option::<String>(map, "keywords")?;
                let livestream = get_option::<bool>(map, "livestream")?;
                let sourcerelationship = get_option::<bool>(map, "sourcerelationship")?;
                let len = get_option::<i32>(map, "len")?;
                let language = get_option::<String>(map, "language")?;
                let embeddable = get_option::<bool>(map, "embeddable")?;
                let data = get_option::<Vec<Data>>(map, "data")?;
                let ext = get_option::<serde_json::Map<String, Value>>(map, "ext")?;
                Ok(Content {
                    id, episode, title, series, season, artist, genre, album, isrc, producer, url,
                    cat, prodq, videoquality, context, contentrating, userrating, qagmediarating,
                    keywords, livestream, sourcerelationship, len, language, embeddable, data, ext,
                })
            },
        }
    }

    proof fn round_trip(m: ContentView) {
        lemma_members(m);
        let members = m.members();
        lemma_optional::<String>(members, "id"@, m.id);
        lemma_optional::<i32>(members, "episode"@, m.episode);
        lemma_optional::<String>(members, "title"@, m.title);
        lemma_optional::<String>(members, "series"@, m.series);
        lemma_optional::<String>(members, "season"@, m.season);
        lemma_optional::<String>(members, "artist"@, m.artist);
        lemma_optional::<String>(members, "genre"@, m.genre);
        lemma_optional::<String>(members, "album"@, m.album);
        lemma_optional::<String>(members, "isrc"@, m.isrc);
        lemma_optional::<Producer>(members, "producer"@, m.producer);
        lemma_optional::<String>(members, "url"@, m.url);
        lemma_optional::<Vec<ContentCategory>>(members, "cat"@, m.cat);
        lemma_optional::<ProductionQuality>(members, "prodq"@, m.prodq);
        lemma_optional::<ProductionQuality>(members, "videoquality"@, m.videoquality);
        lemma_optional::<ContentContext>(members, "context"@, m.context);
        lemma_optional::<String>(members, "contentrating"@, m.contentrating);
        lemma_optional::<String>(members, "userrating"@, m.userrating);
        lemma_optional::<IqgMediaRating>(members, "qagmediarating"@, m.qagmediarating);
        lemma_optional::<String>(members, "keywords"@, m.keywords);
        lemma_optional::<bool>(members, "livestream"@, m.livestream);
        lemma_optional::<bool>(members, "sourcerelationship"@, m.sourcerelationship);
        lemma_optional::<i32>(members, "len"@, m.len);
        lemma_optional::<String>(members, "language"@, m.language);
        lemma_optional::<bool>(members, "embeddable"@, m.embeddable);
        lemma_optional::<Vec<Data>>(members, "data"@, m.data);
        lemma_optional::<serde_json::Map<String, Value>>(members, "ext"@, m.ext);
    }

    proof fn decoded_valid(json: Json) {
        if let Json::Object(members) = json {
            lemma_optional_valid::<Producer>(members, "producer"@);
            lemma_optional_valid::<Vec<Data>>(members, "data"@);
        }
    }
}

/// A default value is encoded to the least document: its required members, and no other.
pub proof fn default_is_minimal()
    ensures
        Content::encoded(ContentView::default()) == Json::Object(Seq::empty()),
{
    reveal(with_some);
    let d = ContentView::default();
    assert(d.members() =~= Seq::empty());
}

} // verus!
