//! The search service: what a search asks of the server and what is made of
//! the answer.
//!
//! The request itself is sent by the caller. This module fixes the address
//! and the parameters of the request and turns the image URLs of the answer
//! into items for the user interface.

use vstd::prelude::*;
use vstd::string::StringExecFns;

use crate::text::trimmed;

verus! {

/// One image of a search result.
#[derive(Debug, PartialEq, Eq)]
pub struct MemeItem {
    /// An identifier made up for this result; it means nothing to the server.
    pub id: String,
    pub url: String,
    pub description: Option<String>,
}

/// Mathematical model of a [`MemeItem`].
pub struct MemeItemView {
    pub id: Seq<char>,
    pub url: Seq<char>,
    pub description: Option<Seq<char>>,
}

impl View for MemeItem {
    type V = MemeItemView;

    open spec fn view(&self) -> MemeItemView {
        MemeItemView { id: self.id@, url: self.url@, description: self.description.deep_view() }
    }
}

impl DeepView for MemeItem {
    type V = MemeItemView;

    open spec fn deep_view(&self) -> MemeItemView {
        self@
    }
}

impl Clone for MemeItem {
    fn clone(&self) -> (r: Self)
        ensures
            r@ == self@,
    {
        let description = match &self.description {
            Some(text) => Some(text.clone()),
            None => None,
        };
        MemeItem { id: self.id.clone(), url: self.url.clone(), description }
    }
}

/// Where the search service is found and how long a request may take.
#[derive(Debug, PartialEq, Eq)]
pub struct MemeServerConfig {
    pub api_url: String,
    pub timeout_seconds: u64,
}

/// Mathematical model of a [`MemeServerConfig`].
pub struct MemeServerConfigView {
    pub api_url: Seq<char>,
    pub timeout_seconds: nat,
}

impl View for MemeServerConfig {
    type V = MemeServerConfigView;

    open spec fn view(&self) -> MemeServerConfigView {
        MemeServerConfigView {
            api_url: self.api_url@,
            timeout_seconds: self.timeout_seconds as nat,
        }
    }
}

/// The configuration of a client that was given none.
pub open spec fn default_server_config() -> MemeServerConfigView {
    MemeServerConfigView { api_url: "https://api.example.com/memes"@, timeout_seconds: 10 }
}

impl Default for MemeServerConfig {
    fn default() -> (r: Self)
        ensures
            r@ == default_server_config(),
    {
        MemeServerConfig { api_url: "https://api.example.com/memes".to_string(), timeout_seconds: 10 }
    }
}

/// The number of results that a search asks for.
pub const RESULTS_PER_SEARCH: u64 = 10;

/// The length of the identifier of a [`MemeItem`]: thirty-two hexadecimal
/// digits in five groups, with a hyphen between two groups.
pub const ITEM_ID_LENGTH: usize = 36;

/// What a search asks of the server: the address to post to and the
/// parameters of the search.
#[derive(Debug, PartialEq, Eq)]
pub struct SearchRequest {
    pub url: String,
    pub query: String,
    pub n_results: u64,
    pub resource_pack_uuids: Vec<String>,
}

/// Mathematical model of a [`SearchRequest`].
pub struct SearchRequestView {
    pub url: Seq<char>,
    pub query: Seq<char>,
    pub n_results: nat,
    pub resource_pack_uuids: Seq<Seq<char>>,
}

impl View for SearchRequest {
    type V = SearchRequestView;

    open spec fn view(&self) -> SearchRequestView {
        SearchRequestView {
            url: self.url@,
            query: self.query@,
            n_results: self.n_results as nat,
            resource_pack_uuids: self.resource_pack_uuids.deep_view(),
        }
    }
}

/// The request for `keyword`. The search goes to the `search` path below the
/// active endpoint, or below `fallback_url` where no active endpoint is
/// known; it is limited to the enabled libraries, or to none where they are
/// not known.
pub open spec fn search_request_for(
    fallback_url: Seq<char>,
    keyword: Seq<char>,
    active_url: Option<Seq<char>>,
    enabled_libs: Option<Seq<Seq<char>>>,
) -> SearchRequestView {
    SearchRequestView {
        url: (match active_url {
            Some(url) => url,
            None => fallback_url,
        }) + "/search"@,
        query: keyword,
        n_results: RESULTS_PER_SEARCH as nat,
        resource_pack_uuids: match enabled_libs {
            Some(libs) => libs,
            None => Seq::empty(),
        },
    }
}

/// Whether a keyword holds nothing but whitespace. Such a keyword is not
/// sent to the server: its result is empty.
pub fn is_blank_keyword(keyword: &str) -> (r: bool)
    ensures
        r == (trimmed(keyword@).len() == 0),
{
    keyword.trim().is_empty()
}

/// `uuid::Uuid::new_v4`, written out by `to_string`: a random identifier in
/// its hyphenated form, which is always thirty-six characters long. Nothing
/// is claimed of the characters themselves. The call stops the program if
/// the operating system hands out no random bytes.
#[verifier::external_body]
fn fresh_item_id() -> (id: String)
    ensures
        id@.len() == ITEM_ID_LENGTH,
{
    uuid::Uuid::new_v4().to_string()
}

/// The items made of the image URLs of an answer, in the order of the
/// answer: each with the URL it stands for, an identifier of its own and no
/// description.
pub open spec fn items_of(items: Seq<MemeItemView>, urls: Seq<Seq<char>>) -> bool {
    &&& items.len() == urls.len()
    &&& forall|i: int|
        0 <= i < items.len() ==> {
            &&& (#[trigger] items[i]).url == urls[i]
            &&& items[i].description is None
            &&& items[i].id.len() == ITEM_ID_LENGTH
        }
}

/// Turns the image URLs of an answer into items.
pub fn meme_items(urls: Vec<String>) -> (r: Vec<MemeItem>)
    ensures
        items_of(r.deep_view(), urls.deep_view()),
{
    let mut items: Vec<MemeItem> = Vec::new();
    let mut i: usize = 0;
    while i < urls.len()
        invariant
            i <= urls.len(),
            items@.len() == i,
            forall|j: int|
                0 <= j < i ==> {
                    &&& (#[trigger] items@[j]).url@ == urls@[j]@
                    &&& items@[j].description is None
                    &&& items@[j].id@.len() == ITEM_ID_LENGTH
                },
        decreases urls.len() - i,
    {
        items.push(MemeItem { id: fresh_item_id(), url: urls[i].clone(), description: None });
        i += 1;
    }
    items
}

/// The search service as the application sees it.
pub struct MemeServerClient {
    config: MemeServerConfig,
}

impl View for MemeServerClient {
    type V = MemeServerConfigView;

    closed spec fn view(&self) -> MemeServerConfigView {
        self.config@
    }
}

impl MemeServerClient {
    /// A client with the given configuration, or with the default one.
    pub fn new(config: Option<MemeServerConfig>) -> (r: MemeServerClient)
        ensures
            r@ == (match config {
                Some(given) => given@,
                None => default_server_config(),
            }),
    {
        match config {
            Some(given) => MemeServerClient { config: given },
            None => MemeServerClient { config: MemeServerConfig::default() },
        }
    }

    /// Replaces the address that a search falls back to.
    pub fn update_api_url(&mut self, url: String)
        ensures
            final(self)@ == (MemeServerConfigView { api_url: url@, ..old(self)@ }),
    {
        self.config.api_url = url;
    }

    /// The time limit of a request, in seconds.
    pub fn timeout_seconds(&self) -> (r: u64)
        ensures
            r == self@.timeout_seconds,
    {
        self.config.timeout_seconds
    }

    /// The request for `keyword`, given the active endpoint of the preference
    /// store and the enabled libraries, as far as either could be had.
    pub fn search_request(
        &self,
        keyword: &str,
        active_url: Option<String>,
        enabled_libs: Option<Vec<String>>,
    ) -> (r: SearchRequest)
        ensures
            r@ == search_request_for(
                self@.api_url,
                keyword@,
                active_url.deep_view(),
                enabled_libs.deep_view(),
            ),
    {
        let base = match active_url {
            Some(url) => url,
            None => self.config.api_url.clone(),
        };
        let resource_pack_uuids = match enabled_libs {
            Some(libs) => libs,
            None => Vec::new(),
        };
        assert(enabled_libs is None ==> resource_pack_uuids.deep_view() =~= Seq::empty());
        SearchRequest {
            url: base.concat("/search"),
            query: keyword.to_string(),
            n_results: RESULTS_PER_SEARCH,
            resource_pack_uuids,
        }
    }
}

} // verus!
