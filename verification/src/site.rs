//! The Site object (OpenRTB 2.5, section 3.2.13).

use vstd::prelude::*;
use serde_json::Value;
use crate::codec::{
    Codec, current_option, get_option, lemma_lookup_with, lemma_lookup_with_some,
    lemma_lookup_with_unless, lemma_optional, lemma_optional_valid, model_of_option, optional,
    put_some, valid_option, with_some, written,
};
use crate::content::{Content, ContentView};
use crate::content_category::ContentCategory;
use crate::error::{Error, ErrorView};
use crate::json::{Json, Members, lemma_lookup_empty, lookup};
use crate::publisher::{Publisher, PublisherView};
use crate::value::value_from_map;

verus! {

/// Site (OpenRTB 2.5, section 3.2.13).
///
/// This object should be included if the ad supported content is a website as opposed to a
/// non-browser application. A bid request must not contain both a Site and an App object. At a
/// minimum, it is useful to provide a site ID or page URL, but this is not strictly required.
#[derive(Clone, Debug, PartialEq)]
pub struct Site {
    /// Exchange-specific site ID.
    pub id: Option<String>,
    /// Site name (may be aliased at the publisher's request).
    pub name: Option<String>,
    /// Domain of the site (e.g., "mysite.foo.com").
    pub domain: Option<String>,
    /// Array of IAB content categories of the site. Refer to List 5.1.
    pub cat: Option<Vec<ContentCategory>>,
    /// Array of IAB content categories that describe the current section of the site. Refer to
    /// List 5.1.
    pub sectioncat: Option<Vec<ContentCategory>>,
    /// Array of IAB content categories that describe the current page or view of the site.
    /// Refer to List 5.1.
    pub pagecat: Option<Vec<ContentCategory>>,
    /// URL of the page where the impression will be shown.
    pub page: Option<String>,
    /// Referrer URL that caused navigation to the current page.
    pub ref_: Option<String>,
    /// Search string that caused navigation to the current page.
    pub search: Option<String>,
    /// Indicates if the site has been programmed to optimize layout when viewed on mobile
    /// devices, where 0 = no, 1 = yes.
    pub mobile: Option<bool>,
    /// Indicates if the site has a privacy policy, where 0 = no, 1 = yes.
    pub privacypolicy: Option<bool>,
    /// Details about the Publisher (Section 3.2.15) of the site.
    pub publisher: Option<Publisher>,
    /// Details about the Content (Section 3.2.16) within the site.
    pub content: Option<Content>,
    /// Comma separated list of keywords about the site.
    pub keywords: Option<String>,
    /// Placeholder for exchange-specific extensions to OpenRTB.
    pub ext: Option<serde_json::Map<String, Value>>,
}

/// The model of a [`Site`]: the same fields, as plain values.
pub struct SiteView {
    pub id: Option<Seq<char>>,
    pub name: Option<Seq<char>>,
    pub domain: Option<Seq<char>>,
    pub cat: Option<Seq<ContentCategory>>,
    pub sectioncat: Option<Seq<ContentCategory>>,
    pub pagecat: Option<Seq<ContentCategory>>,
    pub page: Option<Seq<char>>,
    pub ref_: Option<Seq<char>>,
    pub search: Option<Seq<char>>,
    pub mobile: Option<bool>,
    pub privacypolicy: Option<bool>,
    pub publisher: Option<PublisherView>,
    pub content: Option<ContentView>,
    pub keywords: Option<Seq<char>>,
    pub ext: Option<Members>,
}

impl SiteView {
    /// The value that [`Site::default`] stands for.
    pub open spec fn default() -> SiteView {
        SiteView {
            id: None,
            name: None,
            domain: None,
            cat: None,
            sectioncat: None,
            pagecat: None,
            page: None,
            ref_: None,
            search: None,
            mobile: None,
            privacypolicy: None,
            publisher: None,
            content: None,
            keywords: None,
            ext: None,
        }
    }

    /// Whether encoding this value and decoding it again yields it: each part of it is
    /// valid.
    pub open spec fn valid(self) -> bool {
        &&& valid_option::<Publisher>(self.publisher)
        &&& valid_option::<Content>(self.content)
    }

    /// Whether no deprecated field is set in this value, at any depth.
    pub open spec fn current(self) -> bool {
        &&& current_option::<Publisher>(self.publisher)
        &&& current_option::<Content>(self.content)
    }

    /// The members that this value is encoded to, in order.
    pub open spec fn members(self) -> Members {
        let m = Seq::<(Seq<char>, Json)>::empty();
        let m = with_some::<String>(m, "id"@, self.id);
        let m = with_some::<String>(m, "name"@, self.name);
        let m = with_some::<String>(m, "domain"@, self.domain);
        let m = with_some::<Vec<ContentCategory>>(m, "cat"@, self.cat);
        let m = with_some::<Vec<ContentCategory>>(m, "sectioncat"@, self.sectioncat);
        let m = with_some::<Vec<ContentCategory>>(m, "pagecat"@, self.pagecat);
        let m = with_some::<String>(m, "page"@, self.page);
        let m = with_some::<String>(m, "ref"@, self.ref_);
        let m = with_some::<String>(m, "search"@, self.search);
        let m = with_some::<bool>(m, "mobile"@, self.mobile);
        let m = with_some::<bool>(m, "privacypolicy"@, self.privacypolicy);
        let m = with_some::<Publisher>(m, "publisher"@, self.publisher);
        let m = with_some::<Content>(m, "content"@, self.content);
        let m = with_some::<String>(m, "keywords"@, self.keywords);
        let m = with_some::<serde_json::Map<String, Value>>(m, "ext"@, self.ext);
        m
    }

    /// What decoding an object of these members yields: the value, or the error of the
    /// first field, in the order of the fields, whose member is not accepted.
    pub open spec fn of_members(members: Members) -> Result<SiteView, ErrorView> {
        let id = optional::<String>(members, "id"@);
        let name = optional::<String>(members, "name"@);
        let domain = optional::<String>(members, "domain"@);
        let cat = optional::<Vec<ContentCategory>>(members, "cat"@);
        let sectioncat = optional::<Vec<ContentCategory>>(members, "sectioncat"@);
        let pagecat = optional::<Vec<ContentCategory>>(members, "pagecat"@);
        let page = optional::<String>(members, "page"@);
        let ref_ = optional::<String>(members, "ref"@);
        let search = optional::<String>(members, "search"@);
        let mobile = optional::<bool>(members, "mobile"@);
        let privacypolicy = optional::<bool>(members, "privacypolicy"@);
        let publisher = optional::<Publisher>(members, "publisher"@);
        let content = optional::<Content>(members, "content"@);
        let keywords = optional::<String>(members, "keywords"@);
        let ext = optional::<serde_json::Map<String, Value>>(members, "ext"@);
        if id is Err {
            Err(id->Err_0)
        } else if name is Err {
            Err(name->Err_0)
        } else if domain is Err {
            Err(domain->Err_0)
        } else if cat is Err {
            Err(cat->Err_0)
        } else if sectioncat is Err {
            Err(sectioncat->Err_0)
        } else if pagecat is Err {
            Err(pagecat->Err_0)
        } else if page is Err {
            Err(page->Err_0)
        } else if ref_ is Err {
            Err(ref_->Err_0)
        } else if search is Err {
            Err(search->Err_0)
        } else if mobile is Err {
            Err(mobile->Err_0)
        } else if privacypolicy is Err {
            Err(privacypolicy->Err_0)
        } else if publisher is Err {
            Err(publisher->Err_0)
        } else if content is Err {
            Err(content->Err_0)
        } else if keywords is Err {
            Err(keywords->Err_0)
        } else if ext is Err {
            Err(ext->Err_0)
        } else {
            Ok(SiteView {
                id: id->Ok_0,
                name: name->Ok_0,
                domain: domain->Ok_0,
                cat: cat->Ok_0,
                sectioncat: sectioncat->Ok_0,
                pagecat: pagecat->Ok_0,
                page: page->Ok_0,
                ref_: ref_->Ok_0,
                search: search->Ok_0,
                mobile: mobile->Ok_0,
                privacypolicy: privacypolicy->Ok_0,
                publisher: publisher->Ok_0,
                content: content->Ok_0,
                keywords: keywords->Ok_0,
                ext: ext->Ok_0,
            })
        }
    }
}

impl Default for Site {
    /// The value whose optional fields are absent and whose other fields have their
    /// defaults.
    fn default() -> (r: Site)
        ensures
            r.model() == SiteView::default(),
    {
        Site {
            id: None,
            name: None,
            domain: None,
            cat: None,
            sectioncat: None,
            pagecat: None,
            page: None,
            ref_: None,
            search: None,
            mobile: None,
            privacypolicy: None,
            publisher: None,
            content: None,
            keywords: None,
            ext: None,
        }
    }
}

/// The lengths of the keys, and the letters that tell keys of one length apart: no two
/// keys are the same.
proof fn lemma_keys()
    ensures
        "id"@.len() == 2,
        "name"@.len() == 4 && "name"@[0] == 'n',
        "domain"@.len() == 6 && "domain"@[0] == 'd',
        "cat"@.len() == 3 && "cat"@[0] == 'c',
        "sectioncat"@.len() == 10,
        "pagecat"@.len() == 7 && "pagecat"@[0] == 'p',
        "page"@.len() == 4 && "page"@[0] == 'p',
        "ref"@.len() == 3 && "ref"@[0] == 'r',
        "search"@.len() == 6 && "search"@[0] == 's',
        "mobile"@.len() == 6 && "mobile"@[0] == 'm',
        "privacypolicy"@.len() == 13,
        "publisher"@.len() == 9,
        "content"@.len() == 7 && "content"@[0] == 'c',
        "keywords"@.len() == 8,
        "ext"@.len() == 3 && "ext"@[0] == 'e',
{
    reveal_strlit("id");
    reveal_strlit("name");
    reveal_strlit("domain");
    reveal_strlit("cat");
    reveal_strlit("sectioncat");
    reveal_strlit("pagecat");
    reveal_strlit("page");
    reveal_strlit("ref");
    reveal_strlit("search");
    reveal_strlit("mobile");
    reveal_strlit("privacypolicy");
    reveal_strlit("publisher");
    reveal_strlit("content");
    reveal_strlit("keywords");
    reveal_strlit("ext");
}

/// What is found under each key among the members that a value is encoded to.
proof fn lemma_members(m: SiteView)
    ensures
        lookup(m.members(), "id"@) == written::<String>(m.id),
        lookup(m.members(), "name"@) == written::<String>(m.name),
        lookup(m.members(), "domain"@) == written::<String>(m.domain),
        lookup(m.members(), "cat"@) == written::<Vec<ContentCategory>>(m.cat),
        lookup(m.members(), "sectioncat"@) == written::<Vec<ContentCategory>>(m.sectioncat),
        lookup(m.members(), "pagecat"@) == written::<Vec<ContentCategory>>(m.pagecat),
        lookup(m.members(), "page"@) == written::<String>(m.page),
        lookup(m.members(), "ref"@) == written::<String>(m.ref_),
        lookup(m.members(), "search"@) == written::<String>(m.search),
        lookup(m.members(), "mobile"@) == written::<bool>(m.mobile),
        lookup(m.members(), "privacypolicy"@) == written::<bool>(m.privacypolicy),
        lookup(m.members(), "publisher"@) == written::<Publisher>(m.publisher),
        lookup(m.members(), "content"@) == written::<Content>(m.content),
        lookup(m.members(), "keywords"@) == written::<String>(m.keywords),
        lookup(m.members(), "ext"@) == written::<serde_json::Map<String, Value>>(m.ext),
{
    broadcast use {lemma_lookup_with, lemma_lookup_with_some, lemma_lookup_with_unless};
    lemma_keys();
    assert forall|key: Seq<char>| lookup(Seq::empty(), key) is None by {
        lemma_lookup_empty(key);
    }
}

impl Codec for Site {
    type Model = SiteView;

    open spec fn model(&self) -> SiteView {
        SiteView {
            id: model_of_option::<String>(self.id),
            name: model_of_option::<String>(self.name),
            domain: model_of_option::<String>(self.domain),
            cat: model_of_option::<Vec<ContentCategory>>(self.cat),
            sectioncat: model_of_option::<Vec<ContentCategory>>(self.sectioncat),
            pagecat: model_of_option::<Vec<ContentCategory>>(self.pagecat),
            page: model_of_option::<String>(self.page),
            ref_: model_of_option::<String>(self.ref_),
            search: model_of_option::<String>(self.search),
            mobile: model_of_option::<bool>(self.mobile),
            privacypolicy: model_of_option::<bool>(self.privacypolicy),
            publisher: model_of_option::<Publisher>(self.publisher),
            content: model_of_option::<Content>(self.content),
            keywords: model_of_option::<String>(self.keywords),
            ext: model_of_option::<serde_json::Map<String, Value>>(self.ext),
        }
    }

    open spec fn valid(m: SiteView) -> bool {
        m.valid()
    }

    open spec fn current(m: SiteView) -> bool {
        m.current()
    }

    open spec fn encoded(m: SiteView) -> Json {
        Json::Object(m.members())
    }

    open spec fn decoded(json: Json) -> Result<SiteView, ErrorView> {
        match json {
            Json::Object(members) => SiteView::of_members(members),
            _ => Err(ErrorView::shape(json, "an object"@)),
        }
    }

    fn to_value(&self) -> (value: Value) {
        let mut map = serde_json::Map::new();
        put_some::<String>(&mut map, "id", &self.id);
        put_some::<String>(&mut map, "name", &self.name);
        put_some::<String>(&mut map, "domain", &self.domain);
        put_some::<Vec<ContentCategory>>(&mut map, "cat", &self.cat);
        put_some::<Vec<ContentCategory>>(&mut map, "sectioncat", &self.sectioncat);
        put_some::<Vec<ContentCategory>>(&mut map, "pagecat", &self.pagecat);
        put_some::<String>(&mut map, "page", &self.page);
        put_some::<String>(&mut map, "ref", &self.ref_);
        put_some::<String>(&mut map, "search", &self.search);
        put_some::<bool>(&mut map, "mobile", &self.mobile);
        put_some::<bool>(&mut map, "privacypolicy", &self.privacypolicy);
        put_some::<Publisher>(&mut map, "publisher", &self.publisher);
        put_some::<Content>(&mut map, "content", &self.content);
        put_some::<String>(&mut map, "keywords", &self.keywords);
        put_some::<serde_json::Map<String, Value>>(&mut map, "ext", &self.ext);
        value_from_map(map)
    }

    fn from_value(value: &Value) -> (r: Result<Site, Error>) {
        match value.as_object() {
            None => Err(Error::shape(value, "an object")),
            Some(map) => {
                let id = get_option::<String>(map, "id")?;
                let name = get_option::<String>(map, "name")?;
                let domain = get_option::<String>(map, "domain")?;
                let cat = get_option::<Vec<ContentCategory>>(map, "cat")?;
                let sectioncat = get_option::<Vec<ContentCategory>>(map, "sectioncat")?;
                let pagecat = get_option::<Vec<ContentCategory>>(map, "pagecat")?;
                let page = get_option::<String>(map, "page")?;
                let ref_ = get_option::<String>(map, "ref")?;
                let search = get_option::<String>(map, "search")?;
                let mobile = get_option::<bool>(map, "mobile")?;
                let privacypolicy = get_option::<bool>(map, "privacypolicy")?;
                let publisher = get_option::<Publisher>(map, "publisher")?;
                let content = get_option::<Content>(map, "content")?;
                let keywords = get_option::<String>(map, "keywords")?;
                let ext = get_option::<serde_json::Map<String, Value>>(map, "ext")?;
                Ok(Site {
                    id, name, domain, cat, sectioncat, pagecat, page, ref_, search, mobile,
                    privacypolicy, publisher, content, keywords, ext,
                })
            },
        }
    }

    proof fn round_trip(m: SiteView) {
        lemma_members(m);
        let members = m.members();
        lemma_optional::<String>(members, "id"@, m.id);
        lemma_optional::<String>(members, "name"@, m.name);
        lemma_optional::<String>(members, "domain"@, m.domain);
        lemma_optional::<Vec<ContentCategory>>(members, "cat"@, m.cat);
        lemma_optional::<Vec<ContentCategory>>(members, "sectioncat"@, m.sectioncat);
        lemma_optional::<Vec<ContentCategory>>(members, "pagecat"@, m.pagecat);
        lemma_optional::<String>(members, "page"@, m.page);
        lemma_optional::<String>(members, "ref"@, m.ref_);
        lemma_optional::<String>(members, "search"@, m.search);
        lemma_optional::<bool>(members, "mobile"@, m.mobile);
        lemma_optional::<bool>(members, "privacypolicy"@, m.privacypolicy);
        lemma_optional::<Publisher>(members, "publisher"@, m.publisher);
        lemma_optional::<Content>(members, "content"@, m.content);
        lemma_optional::<String>(members, "keywords"@, m.keywords);
        lemma_optional::<serde_json::Map<String, Value>>(members, "ext"@, m.ext);
    }

    proof fn decoded_valid(json: Json) {
        if let Json::Object(members) = json {
            lemma_optional_valid::<Publisher>(members, "publisher"@);
            lemma_optional_valid::<Content>(members, "content"@);
        }
    }
}

/// A default value is encoded to the least document: its required members, and no other.
pub proof fn default_is_minimal()
    ensures
        Site::encoded(SiteView::default()) == Json::Object(Seq::empty()),
{
    reveal(with_some);
    let d = SiteView::default();
    assert(d.members() =~= Seq::empty());
}

} // verus!
