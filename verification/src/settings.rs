//! Where the services find their backends and where they listen, with the
//! defaults for what is not configured.

use vstd::prelude::*;

verus! {

/// Where the graph backend is looked for when nothing else is configured.
pub const DEFAULT_GRAPH_URL: &'static str = "bolt://127.0.0.1:7687";

/// Where the search index is looked for when nothing else is configured.
pub const DEFAULT_INDEX_URL: &'static str = "localhost:7700";

/// The port on which the feed service listens when none is configured.
pub const DEFAULT_RECOMMENDATION_PORT: u16 = 8889;

/// The port on which the search service listens when none is configured.
pub const DEFAULT_SEARCH_PORT: u16 = 8890;

/// The seconds after which a call of the graph backend is given up.
pub const BACKEND_TIMEOUT_SECONDS: u64 = 30;

/// How the graph backend is reached.
#[derive(Clone, Debug, PartialEq, Eq)]
pub struct GraphSettings {
    pub url: String,
    pub username: String,
    pub password: String,
}

/// What a [`GraphSettings`] value is to the contracts.
pub struct GraphSettingsView {
    pub url: Seq<char>,
    pub username: Seq<char>,
    pub password: Seq<char>,
}

impl DeepView for GraphSettings {
    type V = GraphSettingsView;

    open spec fn deep_view(&self) -> GraphSettingsView {
        GraphSettingsView { url: self.url@, username: self.username@, password: self.password@ }
    }
}

/// How the search index is reached.
#[derive(Clone, Debug, PartialEq, Eq)]
pub struct IndexSettings {
    pub url: String,
    pub key: String,
}

/// What an [`IndexSettings`] value is to the contracts.
pub struct IndexSettingsView {
    pub url: Seq<char>,
    pub key: Seq<char>,
}

impl DeepView for IndexSettings {
    type V = IndexSettingsView;

    open spec fn deep_view(&self) -> IndexSettingsView {
        IndexSettingsView { url: self.url@, key: self.key@ }
    }
}

/// `configured` where it is there, else `default`.
pub open spec fn or_default(configured: Option<Seq<char>>, default: Seq<char>) -> Seq<char> {
    match configured {
        Some(value) => value,
        None => default,
    }
}

/// `configured` where it is there, else `default`.
fn text_or(configured: Option<String>, default: &str) -> (text: String)
    ensures
        text@ == or_default(configured.deep_view(), default@),
{
    match configured {
        Some(value) => value,
        None => default.to_owned(),
    }
}

/// How the graph backend is reached: as configured, at `DEFAULT_GRAPH_URL`
/// where no URL is configured, with an empty user name or password where
/// none is configured.
pub fn graph_settings(
    url: Option<String>,
    username: Option<String>,
    password: Option<String>,
) -> (settings: GraphSettings)
    ensures
        settings.deep_view() == (GraphSettingsView {
            url: or_default(url.deep_view(), DEFAULT_GRAPH_URL@),
            username: or_default(username.deep_view(), Seq::empty()),
            password: or_default(password.deep_view(), Seq::empty()),
        }),
{
    proof {
        reveal_strlit("");
        assert(""@ =~= Seq::<char>::empty());
    }
    GraphSettings {
        url: text_or(url, DEFAULT_GRAPH_URL),
        username: text_or(username, ""),
        password: text_or(password, ""),
    }
}

/// How the search index is reached: as configured, at `DEFAULT_INDEX_URL`
/// where no URL is configured, with an empty key where none is configured.
pub fn index_settings(url: Option<String>, key: Option<String>) -> (settings: IndexSettings)
    ensures
        settings.deep_view() == (IndexSettingsView {
            url: or_default(url.deep_view(), DEFAULT_INDEX_URL@),
            key: or_default(key.deep_view(), Seq::empty()),
        }),
{
    proof {
        reveal_strlit("");
        assert(""@ =~= Seq::<char>::empty());
    }
    IndexSettings { url: text_or(url, DEFAULT_INDEX_URL), key: text_or(key, "") }
}

/// The port to listen on: the configured one, or `default` where none is.
pub fn port_or(configured: Option<u16>, default: u16) -> (port: u16)
    ensures
        port == (match configured {
            Some(port) => port,
            None => default,
        }),
{
    match configured {
        Some(port) => port,
        None => default,
    }
}

} // verus!
