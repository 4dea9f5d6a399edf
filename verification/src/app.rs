//! The App object (OpenRTB 2.5, section 3.2.14).

use vstd::prelude::*;
use serde_json::Value;
use crate::codec::{
    Codec, current_option, get_option, lemma_lookup_with, lemma_lookup_with_some,
    lemma_lookup_with_unless, lemma_optional, lemma_optional_valid, model_of_option, optional,
    put_some, valid_option, with_some, written,
};
use crate::content::{Content, ContentView};
use crate::content_category::ContentCategory;
use crate::error::{Error, ErrorView};
use crate::json::{Json, Members, lemma_lookup_empty, lookup};
use crate::publisher::{Publisher, PublisherView};
use crate::value::value_from_map;

verus! {

/// App (OpenRTB 2.5, section 3.2.14).
///
/// This object should be included if the ad supported content is a non-browser application
/// (typically in mobile) as opposed to a website. A bid request must not contain both an App
/// and a Site object. At a minimum, it is useful to provide an App ID or bundle, but this is
/// not strictly required.
#[derive(Clone, Debug, PartialEq)]
pub struct App {
    /// Exchange-specific app ID.
    pub id: Option<String>,
    /// App name (may be aliased at the publisher's request).
    pub name: Option<String>,
    /// A platform-specific application identifier intended to be unique to the app and
    /// independent of the exchange. On Android, this should be a bundle or package name (e.g.,
    /// com.foo.mygame). On iOS, it is typically a numeric ID.
    pub bundle: Option<String>,
    /// Domain of the app (e.g., "mygame.foo.com").
    pub domain: Option<String>,
    /// App store URL for an installed app; for IQG 2.1 compliance.
    pub storeurl: Option<String>,
    /// Array of IAB content categories of the app. Refer to List 5.1.
    pub cat: Option<Vec<ContentCategory>>,
    /// Array of IAB content categories that describe the current section of the app. Refer to
    /// List 5.1.
    pub sectioncat: Option<Vec<ContentCategory>>,
    /// Array of IAB content categories that describe the current page or view of the app. Refer
    /// to List 5.1.
    pub pagecat: Option<Vec<ContentCategory>>,
    /// Application version.
    pub ver: Option<String>,
    /// Indicates if the app has a privacy policy, where 0 = no, 1 = yes.
    pub privacypolicy: Option<bool>,
    /// 0 = app is free, 1 = the app is a paid version.
    pub paid: Option<bool>,
    /// Details about the Publisher (Section 3.2.15) of the app.
    pub publisher: Option<Publisher>,
    /// Details about the Content (Section 3.2.16) within the app.
    pub content: Option<Content>,
    /// Comma separated list of keywords about the app.
    pub keywords: Option<String>,
    /// Placeholder for exchange-specific extensions to OpenRTB.
    pub ext: Option<serde_json::Map<String, Value>>,
}

/// The model of a [`App`]: the same fields, as plain values.
pub struct AppView {
    pub id: Option<Seq<char>>,
    pub name: Option<Seq<char>>,
    pub bundle: Option<Seq<char>>,
    pub domain: Option<Seq<char>>,
    pub storeurl: Option<Seq<char>>,
    pub cat: Option<Seq<ContentCategory>>,
    pub sectioncat: Option<Seq<ContentCategory>>,
    pub pagecat: Option<Seq<ContentCategory>>,
    pub ver: Option<Seq<char>>,
    pub privacypolicy: Option<bool>,
    pub paid: Option<bool>,
    pub publisher: Option<PublisherView>,
    pub content: Option<ContentView>,
    pub keywords: Option<Seq<char>>,
    pub ext: Option<Members>,
}

impl AppView {
    /// The value that [`App::default`] stands for.
    pub open spec fn default() -> AppView {
        AppView {
            id: None,
            name: None,
            bundle: None,
            domain: None,
            storeurl: None,
            cat: None,
            sectioncat: None,
            pagecat: None,
            ver: None,
            privacypolicy: None,
            paid: None,
            publisher: None,
            content: None,
            keywords: None,
            ext: None,
        }
    }

    /// Whether encoding this value and decoding it again yields it: each part of it is
    /// valid.
    pub open spec fn valid(self) -> bool {
        &&& valid_option::<Publisher>(self.publisher)
        &&& valid_option::<Content>(self.content)
    }

    /// Whether no deprecated field is set in this value, at any depth.
    pub open spec fn current(self) -> bool {
        &&& current_option::<Publisher>(self.publisher)
        &&& current_option::<Content>(self.content)
    }

    /// The members that this value is encoded to, in order.
    pub open spec fn members(self) -> Members {
        let m = Seq::<(Seq<char>, Json)>::empty();
        let m = with_some::<String>(m, "id"@, self.id);
        let m = with_some::<String>(m, "name"@, self.name);
        let m = with_some::<String>(m, "bundle"@, self.bundle);
        let m = with_some::<String>(m, "domain"@, self.domain);
        let m = with_some::<String>(m, "storeurl"@, self.storeurl);
        let m = with_some::<Vec<ContentCategory>>(m, "cat"@, self.cat);
        let m = with_some::<Vec<ContentCategory>>(m, "sectioncat"@, self.sectioncat);
        let m = with_some::<Vec<ContentCategory>>(m, "pagecat"@, self.pagecat);
        let m = with_some::<String>(m, "ver"@, self.ver);
        let m = with_some::<bool>(m, "privacypolicy"@, self.privacypolicy);
        let m = with_some::<bool>(m, "paid"@, self.paid);
        let m = with_some::<Publisher>(m, "publisher"@, self.publisher);
        let m = with_some::<Content>(m, "content"@, self.content);
        let m = with_some::<String>(m, "keywords"@, self.keywords);
        let m = with_some::<serde_json::Map<String, Value>>(m, "ext"@, self.ext);
        m
    }

    /// What decoding an object of these members yields: the value, or the error of the
    /// first field, in the order of the fields, whose member is not accepted.
    pub open spec fn of_members(members: Members) -> Result<AppView, ErrorView> {
        let id = optional::<String>(members, "id"@);
        let name = optional::<String>(members, "name"@);
        let bundle = optional::<String>(members, "bundle"@);
        let domain = optional::<String>(members, "domain"@);
        let storeurl = optional::<String>(members, "storeurl"@);
        let cat = optional::<Vec<ContentCategory>>(members, "cat"@);
        let sectioncat = optional::<Vec<ContentCategory>>(members, "sectioncat"@);
        let pagecat = optional::<Vec<ContentCategory>>(members, "pagecat"@);
        let ver = optional::<String>(members, "ver"@);
        let privacypolicy = optional::<bool>(members, "privacypolicy"@);
        let paid = optional::<bool>(members, "paid"@);
        let publisher = optional::<Publisher>(members, "publisher"@);
        let content = optional::<Content>(members, "content"@);
        let keywords = optional::<String>(members, "keywords"@);
        let ext = optional::<serde_json::Map<String, Value>>(members, "ext"@);
        if id is Err {
            Err(id->Err_0)
        } else if name is Err {
            Err(name->Err_0)
        } else if bundle is Err {
            Err(bundle->Err_0)
        } else if domain is Err {
            Err(domain->Err_0)
        } else if storeurl is Err {
            Err(storeurl->Err_0)
        } else if cat is Err {
            Err(cat->Err_0)
        } else if sectioncat is Err {
            Err(sectioncat->Err_0)
        } else if pagecat is Err {
            Err(pagecat->Err_0)
        } else if ver is Err {
            Err(ver->Err_0)
        } else if privacypolicy is Err {
            Err(privacypolicy->Err_0)
        } else if paid is Err {
            Err(paid->Err_0)
        } else if publisher is Err {
            Err(publisher->Err_0)
        } else if content is Err {
            Err(content->Err_0)
        } else if keywords is Err {
            Err(keywords->Err_0)
        } else if ext is Err {
            Err(ext->Err_0)
        } else {
            Ok(AppView {
                id: id->Ok_0,
                name: name->Ok_0,
                bundle: bundle->Ok_0,
                domain: domain->Ok_0,
                storeurl: storeurl->Ok_0,
                cat: cat->Ok_0,
                sectioncat: sectioncat->Ok_0,
                pagecat: pagecat->Ok_0,
                ver: ver->Ok_0,
                privacypolicy: privacypolicy->Ok_0,
                paid: paid->Ok_0,
                publisher: publisher->Ok_0,
                content: content->Ok_0,
                keywords: keywords->Ok_0,
                ext: ext->Ok_0,
            })
        }
    }
}

impl Default for App {
    /// The value whose optional fields are absent and whose other fields have their
    /// defaults.
    fn default() -> (r: App)
        ensures
            r.model() == AppView::default(),
    {
        App {
            id: None,
            name: None,
            bundle: None,
            domain: None,
            storeurl: None,
            cat: None,
            sectioncat: None,
            pagecat: None,
            ver: None,
            privacypolicy: None,
            paid: None,
            publisher: None,
            content: None,
            keywords: None,
            ext: None,
        }
    }
}

/// The lengths of the keys, and the letters that tell keys of one length apart: no two
/// keys are the same.
proof fn lemma_keys()
    ensures
        "id"@.len() == 2,
        "name"@.len() == 4 && "name"@[0] == 'n',
        "bundle"@.len() == 6 && "bundle"@[0] == 'b',
        "domain"@.len() == 6 && "domain"@[0] == 'd',
        "storeurl"@.len() == 8 && "storeurl"@[0] == 's',
        "cat"@.len() == 3 && "cat"@[0] == 'c',
        "sectioncat"@.len() == 10,
        "pagecat"@.len() == 7 && "pagecat"@[0] == 'p',
        "ver"@.len() == 3 && "ver"@[0] == 'v',
        "privacypolicy"@.len() == 13,
        "paid"@.len() == 4 && "paid"@[0] == 'p',
        "publisher"@.len() == 9,
        "content"@.len() == 7 && "content"@[0] == 'c',
        "keywords"@.len() == 8 && "keywords"@[0] == 'k',
        "ext"@.len() == 3 && "ext"@[0] == 'e',
{
    reveal_strlit("id");
    reveal_strlit("name");
    reveal_strlit("bundle");
    reveal_strlit("domain");
    reveal_strlit("storeurl");
    reveal_strlit("cat");
    reveal_strlit("sectioncat");
    reveal_strlit("pagecat");
    reveal_strlit("ver");
    reveal_strlit("privacypolicy");
    reveal_strlit("paid");
    reveal_strlit("publisher");
    reveal_strlit("content");
    reveal_strlit("keywords");
    reveal_strlit("ext");
}

/// What is found under each key among the members that a value is encoded to.
proof fn lemma_members(m: AppView)
    ensures
        lookup(m.members(), "id"@) == written::<String>(m.id),
        lookup(m.members(), "name"@) == written::<String>(m.name),
        lookup(m.members(), "bundle"@) == written::<String>(m.bundle),
        lookup(m.members(), "domain"@) == written::<String>(m.domain),
        lookup(m.members(), "storeurl"@) == written::<String>(m.storeurl),
        lookup(m.members(), "cat"@) == written::<Vec<ContentCategory>>(m.cat),
        lookup(m.members(), "sectioncat"@) == written::<Vec<ContentCategory>>(m.sectioncat),
        lookup(m.members(), "pagecat"@) == written::<Vec<ContentCategory>>(m.pagecat),
        lookup(m.members(), "ver"@) == written::<String>(m.ver),
        lookup(m.members(), "privacypolicy"@) == written::<bool>(m.privacypolicy),
        lookup(m.members(), "paid"@) == written::<bool>(m.paid),
        lookup(m.members(), "publisher"@) == written::<Publisher>(m.publisher),
        lookup(m.members(), "content"@) == written::<Content>(m.content),
        lookup(m.members(), "keywords"@) == written::<String>(m.keywords),
        lookup(m.members(), "ext"@) == written::<serde_json::Map<String, Value>>(m.ext),
{
    broadcast use {lemma_lookup_with, lemma_lookup_with_some, lemma_lookup_with_unless};
    lemma_keys();
    assert forall|key: Seq<char>| lookup(Seq::empty(), key) is None by {
        lemma_lookup_empty(key);
    }
}

impl Codec for App {
    type Model = AppView;

    open spec fn model(&self) -> AppView {
        AppView {
            id: model_of_option::<String>(self.id),
            name: model_of_option::<String>(self.name),
            bundle: model_of_option::<String>(self.bundle),
            domain: model_of_option::<String>(self.domain),
            storeurl: model_of_option::<String>(self.storeurl),
            cat: model_of_option::<Vec<ContentCategory>>(self.cat),
            sectioncat: model_of_option::<Vec<ContentCategory>>(self.sectioncat),
            pagecat: model_of_option::<Vec<ContentCategory>>(self.pagecat),
            ver: model_of_option::<String>(self.ver),
            privacypolicy: model_of_option::<bool>(self.privacypolicy),
            paid: model_of_option::<bool>(self.paid),
            publisher: model_of_option::<Publisher>(self.publisher),
            content: model_of_option::<Content>(self.content),
            keywords: model_of_option::<String>(self.keywords),
            ext: model_of_option::<serde_json::Map<String, Value>>(self.ext),
        }
    }

    open spec fn valid(m: AppView) -> bool {
        m.valid()
    }

    open spec fn current(m: AppView) -> bool {
        m.current()
    }

    open spec fn encoded(m: AppView) -> Json {
        Json::Object(m.members())
    }

    open spec fn decoded(json: Json) -> Result<AppView, ErrorView> {
        match json {
            Json::Object(members) => AppView::of_members(members),
            _ => Err(ErrorView::shape(json, "an object"@)),
        }
    }

    fn to_value(&self) -> (value: Value) {
        let mut map = serde_json::Map::new();
        put_some::<String>(&mut map, "id", &self.id);
        put_some::<String>(&mut map, "name", &self.name);
        put_some::<String>(&mut map, "bundle", &self.bundle);
        put_some::<String>(&mut map, "domain", &self.domain);
        put_some::<String>(&mut map, "storeurl", &self.storeurl);
        put_some::<Vec<ContentCategory>>(&mut map, "cat", &self.cat);
        put_some::<Vec<ContentCategory>>(&mut map, "sectioncat", &self.sectioncat);
        put_some::<Vec<ContentCategory>>(&mut map, "pagecat", &self.pagecat);
        put_some::<String>(&mut map, "ver", &self.ver);
        put_some::<bool>(&mut map, "privacypolicy", &self.privacypolicy);
        put_some::<bool>(&mut map, "paid", &self.paid);
        put_some::<Publisher>(&mut map, "publisher", &self.publisher);
        put_some::<Content>(&mut map, "content", &self.content);
        put_some::<String>(&mut map, "keywords", &self.keywords);
        put_some::<serde_json::Map<String, Value>>(&mut map, "ext", &self.ext);
        value_from_map(map)
    }

    fn from_value(value: &Value) -> (r: Result<App, Error>) {
        match value.as_object() {
            None => Err(Error::shape(value, "an object")),
            Some(map) => {
                let id = get_option::<String>(map, "id")?;
                let name = get_option::<String>(map, "name")?;
                let bundle = get_option::<String>(map, "bundle")?;
                let domain = get_option::<String>(map, "domain")?;
                let storeurl = get_option::<String>(map, "storeurl")?;
                let cat = get_option::<Vec<ContentCategory>>(map, "cat")?;
                let sectioncat = get_option::<Vec<ContentCategory>>(map, "sectioncat")?;
                let pagecat = get_option::<Vec<ContentCategory>>(map, "pagecat")?;
                let ver = get_option::<String>(map, "ver")?;
                let privacypolicy = get_option::<bool>(map, "privacypolicy")?;
                let paid = get_option::<bool>(map, "paid")?;
                let publisher = get_option::<Publisher>(map, "publisher")?;
                let content = get_option::<Content>(map, "content")?;
                let keywords = get_option::<String>(map, "keywords")?;
                let ext = get_option::<serde_json::Map<String, Value>>(map, "ext")?;
                Ok(App {
                    id, name, bundle, domain, storeurl, cat, sectioncat, pagecat, ver,
                    privacypolicy, paid, publisher, content, keywords, ext,
                })
            },
        }
    }

    proof fn round_trip(m: AppView) {
        lemma_members(m);
        let members = m.members();
        lemma_optional::<String>(members, "id"@, m.id);
        lemma_optional::<String>(members, "name"@, m.name);
        lemma_optional::<String>(members, "bundle"@, m.bundle);
        lemma_optional::<String>(members, "domain"@, m.domain);
        lemma_optional::<String>(members, "storeurl"@, m.storeurl);
        lemma_optional::<Vec<ContentCategory>>(members, "cat"@, m.cat);
        lemma_optional::<Vec<ContentCategory>>(members, "sectioncat"@, m.sectioncat);
        lemma_optional::<Vec<ContentCategory>>(members, "pagecat"@, m.pagecat);
        lemma_optional::<String>(members, "ver"@, m.ver);
        lemma_optional::<bool>(members, "privacypolicy"@, m.privacypolicy);
        lemma_optional::<bool>(members, "paid"@, m.paid);
        lemma_optional::<Publisher>(members, "publisher"@, m.publisher);
        lemma_optional::<Content>(members, "content"@, m.content);
        lemma_optional::<String>(members, "keywords"@, m.keywords);
        lemma_optional::<serde_json::Map<String, Value>>(members, "ext"@, m.ext);
    }

    proof fn decoded_valid(json: Json) {
        if let Json::Object(members) = json {
            lemma_optional_valid::<Publisher>(members, "publisher"@);
            lemma_optional_valid::<Content>(members, "content"@);
        }
    }
}

/// A default value is encoded to the least document: its required members, and no other.
pub proof fn default_is_minimal()
    ensures
        App::encoded(AppView::default()) == Json::Object(Seq::empty()),
{
    reveal(with_some);
    let d = AppView::default();
    assert(d.members() =~= Seq::empty());
}

} // verus!
