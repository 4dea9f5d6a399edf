//! The channel of a bid request: the site or the app in which the impressions are shown.
//!
//! On the wire the choice has no tag of its own. The object holds the member `site` or the
//! member `app`, and the key that is present says which of the two it is. An object that
//! holds both is not accepted.

use vstd::prelude::*;
use serde_json::Value;
use crate::app::{App, AppView};
use crate::codec::{Codec, lemma_lookup_with_some, with_some, written};
use crate::error::{Error, ErrorKind, ErrorView, Found, FoundView, Step, StepView};
use crate::json::{Json, Members, lookup, lemma_lookup_empty};
use crate::site::{Site, SiteView};
use crate::value::{map_get, map_insert, members_of, value_from_map};

verus! {

/// Either a [`Site`] (OpenRTB 2.5, section 3.2.13) or an [`App`] (section 3.2.14).
#[derive(Clone, Debug, PartialEq)]
pub enum DistributionChannel {
    /// Details via a Site object about the publisher's website. Only applicable and
    /// recommended for websites.
    Site(Site),
    /// Details via an App object about the publisher's app (i.e., non-browser
    /// applications). Only applicable and recommended for apps.
    App(App),
}

/// The model of a [`DistributionChannel`].
pub enum DistributionChannelView {
    Site(SiteView),
    App(AppView),
}

impl View for DistributionChannel {
    type V = DistributionChannelView;

    open spec fn view(&self) -> DistributionChannelView {
        match *self {
            DistributionChannel::Site(site) => DistributionChannelView::Site(site.model()),
            DistributionChannel::App(app) => DistributionChannelView::App(app.model()),
        }
    }
}

/// The model of a channel that may be absent.
pub open spec fn view_of_option(channel: Option<DistributionChannel>) -> Option<
    DistributionChannelView,
> {
    match channel {
        Some(c) => Some(c@),
        None => None,
    }
}

/// The words of the error for an object that holds both a site and an app.
pub open spec fn not_both() -> Seq<char> {
    "one of `site` and `app`, not both"@
}

/// The words of the error for an object that holds neither a site nor an app.
pub open spec fn one_of_them() -> Seq<char> {
    "a member `site` or `app`"@
}

impl DistributionChannelView {
    /// Whether encoding this value and decoding it again yields it: the site or the app is
    /// valid.
    pub open spec fn valid(self) -> bool {
        match self {
            DistributionChannelView::Site(site) => site.valid(),
            DistributionChannelView::App(app) => app.valid(),
        }
    }

    /// Whether no deprecated field is set in the site or the app, at any depth.
    pub open spec fn current(self) -> bool {
        match self {
            DistributionChannelView::Site(site) => site.current(),
            DistributionChannelView::App(app) => app.current(),
        }
    }

    /// The site, if the channel is one.
    pub open spec fn site_of(channel: Option<DistributionChannelView>) -> Option<SiteView> {
        match channel {
            Some(DistributionChannelView::Site(site)) => Some(site),
            _ => None,
        }
    }

    /// The app, if the channel is one.
    pub open spec fn app_of(channel: Option<DistributionChannelView>) -> Option<AppView> {
        match channel {
            Some(DistributionChannelView::App(app)) => Some(app),
            _ => None,
        }
    }

    /// The members after the channel has been written: a site under `site`, an app under
    /// `app`, and nothing where there is no channel.
    pub open spec fn with_channel(
        members: Members,
        channel: Option<DistributionChannelView>,
    ) -> Members {
        let m = with_some::<Site>(members, "site"@, DistributionChannelView::site_of(channel));
        let m = with_some::<App>(m, "app"@, DistributionChannelView::app_of(channel));
        m
    }

    /// The channel among the members of an object: none where neither key is present,
    /// the site or the app where one of them is, and an error where both are or where the
    /// one that is present is not accepted.
    pub open spec fn among(members: Members) -> Result<
        Option<DistributionChannelView>,
        ErrorView,
    > {
        match (lookup(members, "site"@), lookup(members, "app"@)) {
            (None, None) => Ok(None),
            (Some(json), None) => match Site::decoded(json) {
                Ok(site) => Ok(Some(DistributionChannelView::Site(site))),
                Err(e) => Err(e.under(StepView::Key("site"@))),
            },
            (None, Some(json)) => match App::decoded(json) {
                Ok(app) => Ok(Some(DistributionChannelView::App(app))),
                Err(e) => Err(e.under(StepView::Key("app"@))),
            },
            (Some(_), Some(_)) => Err(
                ErrorView {
                    kind: ErrorKind::Shape,
                    found: FoundView::Object,
                    expected: not_both(),
                    path: Seq::empty(),
                },
            ),
        }
    }

    /// A channel that was written is read again, and so is the lack of one.
    pub proof fn lemma_among(members: Members, channel: Option<DistributionChannelView>)
        requires
            channel matches Some(c) ==> c.valid(),
            lookup(members, "site"@) == written::<Site>(DistributionChannelView::site_of(channel)),
            lookup(members, "app"@) == written::<App>(DistributionChannelView::app_of(channel)),
        ensures
            DistributionChannelView::among(members) == Ok::<
                Option<DistributionChannelView>,
                ErrorView,
            >(channel),
    {
        match channel {
            Some(DistributionChannelView::Site(site)) => {
                Site::round_trip(site);
            },
            Some(DistributionChannelView::App(app)) => {
                App::round_trip(app);
            },
            None => {},
        }
    }
}

impl DistributionChannelView {
    /// A channel that is read is valid, unless a deprecated field is set in it.
    pub proof fn lemma_among_valid(members: Members)
        ensures
            DistributionChannelView::among(members) matches Ok(Some(c)) ==> (c.current()
                ==> c.valid()),
    {
        if let Some(json) = lookup(members, "site"@) {
            Site::decoded_valid(json);
        }
        if let Some(json) = lookup(members, "app"@) {
            App::decoded_valid(json);
        }
    }
}

impl DistributionChannel {
    /// Returns true if the `DistributionChannel` is a Site. Returns false otherwise.
    pub fn is_site(&self) -> (r: bool)
        ensures
            r == (*self is Site),
    {
        self.as_site().is_some()
    }

    /// If the `DistributionChannel` is a Site, returns the associated `Site`. Returns None
    /// otherwise.
    pub fn as_site(&self) -> (r: Option<&Site>)
        ensures
            match *self {
                DistributionChannel::Site(site) => r == Some(&site),
                DistributionChannel::App(_) => r is None,
            },
    {
        match self {
            DistributionChannel::Site(site) => Some(site),
            _ => None,
        }
    }

    /// If the `DistributionChannel` is a Site, returns the associated mutable `Site`: what
    /// is written through it becomes the site of the channel. Returns None otherwise, and
    /// leaves the channel as it is.
    pub fn as_site_mut(&mut self) -> (r: Option<&mut Site>)
        ensures
            match *old(self) {
                DistributionChannel::Site(site) => r matches Some(x) && *x == site && *final(self)
                    == DistributionChannel::Site(*final(x)),
                DistributionChannel::App(_) => r is None && *final(self) == *old(self),
            },
    {
        match self {
            DistributionChannel::Site(site) => Some(site),
            _ => None,
        }
    }

    /// Returns true if the `DistributionChannel` is an App. Returns false otherwise.
    pub fn is_app(&self) -> (r: bool)
        ensures
            r == (*self is App),
    {
        self.as_app().is_some()
    }

    /// If the `DistributionChannel` is an App, returns the associated `App`. Returns None
    /// otherwise.
    pub fn as_app(&self) -> (r: Option<&App>)
        ensures
            match *self {
                DistributionChannel::App(app) => r == Some(&app),
                DistributionChannel::Site(_) => r is None,
            },
    {
        match self {
            DistributionChannel::App(app) => Some(app),
            _ => None,
        }
    }

    /// If the `DistributionChannel` is an App, returns the associated mutable `App`: what
    /// is written through it becomes the app of the channel. Returns None otherwise, and
    /// leaves the channel as it is.
    pub fn as_app_mut(&mut self) -> (r: Option<&mut App>)
        ensures
            match *old(self) {
                DistributionChannel::App(app) => r matches Some(x) && *x == app && *final(self)
                    == DistributionChannel::App(*final(x)),
                DistributionChannel::Site(_) => r is None && *final(self) == *old(self),
            },
    {
        match self {
            DistributionChannel::App(app) => Some(app),
            _ => None,
        }
    }

    /// Reads the channel among the members of an object.
    pub fn get_channel(map: &serde_json::Map<String, Value>) -> (r: Result<
        Option<DistributionChannel>,
        Error,
    >)
        ensures
            match (r, DistributionChannelView::among(members_of(*map))) {
                (Ok(x), Ok(m)) => view_of_option(x) == m,
                (Err(e), Err(f)) => e@ == f,
                _ => false,
            },
    {
        match (map_get(map, "site"), map_get(map, "app")) {
            (None, None) => Ok(None),
            (Some(value), None) => match Site::from_value(value) {
                Ok(site) => Ok(Some(DistributionChannel::Site(site))),
                Err(e) => Err(e.under(Step::Key("site"))),
            },
            (None, Some(value)) => match App::from_value(value) {
                Ok(app) => Ok(Some(DistributionChannel::App(app))),
                Err(e) => Err(e.under(Step::Key("app"))),
            },
            (Some(_), Some(_)) => {
                let e = Error {
                    kind: ErrorKind::Shape,
                    found: Found::Object,
                    expected: "one of `site` and `app`, not both",
                    path: Vec::new(),
                };
                assert(e@.path =~= Seq::empty());
                Err(e)
            },
        }
    }

    /// Writes the channel among the members of an object.
    pub fn put_channel(
        map: &mut serde_json::Map<String, Value>,
        channel: &Option<DistributionChannel>,
    )
        ensures
            members_of(*final(map)) == DistributionChannelView::with_channel(
                members_of(*old(map)),
                view_of_option(*channel),
            ),
    {
        reveal(with_some);
        match channel {
            Some(DistributionChannel::Site(site)) => {
                map_insert(map, "site".to_owned(), site.to_value());
            },
            Some(DistributionChannel::App(app)) => {
                map_insert(map, "app".to_owned(), app.to_value());
            },
            None => {},
        }
    }
}

impl Codec for DistributionChannel {
    type Model = DistributionChannelView;

    open spec fn model(&self) -> DistributionChannelView {
        self@
    }

    open spec fn valid(m: DistributionChannelView) -> bool {
        m.valid()
    }

    open spec fn current(m: DistributionChannelView) -> bool {
        m.current()
    }

    open spec fn encoded(m: DistributionChannelView) -> Json {
        Json::Object(DistributionChannelView::with_channel(Seq::empty(), Some(m)))
    }

    open spec fn decoded(json: Json) -> Result<DistributionChannelView, ErrorView> {
        match json {
            Json::Object(members) => match DistributionChannelView::among(members) {
                Ok(Some(channel)) => Ok(channel),
                Ok(None) => Err(ErrorView::absent(one_of_them())),
                Err(e) => Err(e),
            },
            _ => Err(ErrorView::shape(json, "an object"@)),
        }
    }

    fn to_value(&self) -> (value: Value) {
        let mut map = serde_json::Map::new();
        reveal(with_some);
        match self {
            DistributionChannel::Site(site) => {
                map_insert(&mut map, "site".to_owned(), site.to_value());
            },
            DistributionChannel::App(app) => {
                map_insert(&mut map, "app".to_owned(), app.to_value());
            },
        }
        value_from_map(map)
    }

    fn from_value(value: &Value) -> (r: Result<DistributionChannel, Error>) {
        match value.as_object() {
            None => Err(Error::shape(value, "an object")),
            Some(map) => match DistributionChannel::get_channel(map) {
                Ok(Some(channel)) => Ok(channel),
                Ok(None) => Err(Error::absent("a member `site` or `app`")),
                Err(e) => Err(e),
            },
        }
    }

    proof fn round_trip(m: DistributionChannelView) {
        broadcast use lemma_lookup_with_some;
        reveal_strlit("site");
        reveal_strlit("app");
        assert("site"@.len() == 4 && "app"@.len() == 3);
        let members = DistributionChannelView::with_channel(Seq::empty(), Some(m));
        lemma_lookup_empty("site"@);
        lemma_lookup_empty("app"@);
        DistributionChannelView::lemma_among(members, Some(m));
    }

    proof fn decoded_valid(json: Json) {
        if let Json::Object(members) = json {
            DistributionChannelView::lemma_among_valid(members);
        }
    }
}

/// An object that holds both a site and an app is not accepted as a channel.
pub proof fn both_refused(members: Members)
    requires
        lookup(members, "site"@) is Some,
        lookup(members, "app"@) is Some,
    ensures
        DistributionChannelView::among(members) is Err,
        DistributionChannel::decoded(Json::Object(members)) is Err,
{
}

/// An object that holds neither a site nor an app is not accepted as a channel. Among the
/// members of a larger object, it stands for no channel.
pub proof fn neither_refused(members: Members)
    requires
        lookup(members, "site"@) is None,
        lookup(members, "app"@) is None,
    ensures
        DistributionChannelView::among(members) == Ok::<Option<DistributionChannelView>, ErrorView>(
            None,
        ),
        DistributionChannel::decoded(Json::Object(members)) == Err::<
            DistributionChannelView,
            ErrorView,
        >(ErrorView::absent(one_of_them())),
{
}

} // verus!
