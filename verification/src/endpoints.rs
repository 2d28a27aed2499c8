//! Candidate API endpoints and the selection among them.
//!
//! An endpoint list is an ordered sequence of named base URLs together with
//! the index of the one in use. The list may be empty, and a stored index may
//! point past its end: [`ApiUrlConfig::active_url`] resolves both cases
//! without changing what is stored.

use vstd::prelude::*;

use crate::error::ConfigError;

verus! {

/// A named API base URL.
#[derive(Debug, PartialEq, Eq)]
pub struct ApiUrl {
    pub name: String,
    pub url: String,
}

/// Mathematical model of an [`ApiUrl`].
pub struct ApiUrlView {
    pub name: Seq<char>,
    pub url: Seq<char>,
}

impl View for ApiUrl {
    type V = ApiUrlView;

    open spec fn view(&self) -> ApiUrlView {
        ApiUrlView { name: self.name@, url: self.url@ }
    }
}

impl DeepView for ApiUrl {
    type V = ApiUrlView;

    open spec fn deep_view(&self) -> ApiUrlView {
        self@
    }
}

impl Clone for ApiUrl {
    fn clone(&self) -> (r: Self)
        ensures
            r@ == self@,
    {
        ApiUrl { name: self.name.clone(), url: self.url.clone() }
    }
}

/// Display name of the endpoint that ships with the application.
pub open spec fn default_endpoint_name() -> Seq<char> {
    "默认API"@
}

/// Base URL of the endpoint that ships with the application. It is also the
/// URL that an empty endpoint list resolves to.
pub open spec fn default_endpoint_url() -> Seq<char> {
    "https://mememeow.morami.icu"@
}

/// The endpoint list that ships with the application: the built-in endpoint
/// alone.
pub open spec fn default_endpoints() -> Seq<ApiUrlView> {
    seq![ApiUrlView { name: default_endpoint_name(), url: default_endpoint_url() }]
}

/// The endpoint list used when none is configured.
pub fn default_api_server_urls() -> (r: Vec<ApiUrl>)
    ensures
        r.deep_view() == default_endpoints(),
{
    let mut urls: Vec<ApiUrl> = Vec::new();
    urls.push(
        ApiUrl { name: "默认API".to_string(), url: "https://mememeow.morami.icu".to_string() },
    );
    assert(urls.deep_view() =~= default_endpoints());
    urls
}

/// A bare list of endpoints, without a selection.
#[derive(Debug, PartialEq, Eq)]
pub struct ApiServerUrlsConfig {
    pub urls: Vec<ApiUrl>,
}

impl View for ApiServerUrlsConfig {
    type V = Seq<ApiUrlView>;

    open spec fn view(&self) -> Seq<ApiUrlView> {
        self.urls.deep_view()
    }
}

impl Clone for ApiServerUrlsConfig {
    fn clone(&self) -> (r: Self)
        ensures
            r@ == self@,
    {
        let r = ApiServerUrlsConfig { urls: self.urls.clone() };
        assert(r.urls.deep_view() =~= self.urls.deep_view());
        r
    }
}

/// An endpoint list with the index of the endpoint in use.
#[derive(Debug, PartialEq, Eq)]
pub struct ApiUrlConfig {
    pub urls: Vec<ApiUrl>,
    pub active_index: usize,
}

/// Mathematical model of an [`ApiUrlConfig`].
pub struct ApiUrlConfigView {
    pub urls: Seq<ApiUrlView>,
    pub active_index: nat,
}

impl ApiUrlConfigView {
    /// The selection points at an endpoint of the list; with an empty list it
    /// rests at zero.
    pub open spec fn selection_valid(self) -> bool {
        self.active_index < self.urls.len() || (self.urls.len() == 0 && self.active_index == 0)
    }

    /// The URL in use: the built-in URL when the list is empty, the first
    /// entry when the index points past the end, the selected entry otherwise.
    pub open spec fn active_url(self) -> Seq<char> {
        if self.urls.len() == 0 {
            default_endpoint_url()
        } else if self.active_index < self.urls.len() {
            self.urls[self.active_index as int].url
        } else {
            self.urls[0].url
        }
    }

    /// The list with `index` selected.
    pub open spec fn select(self, index: nat) -> ApiUrlConfigView {
        ApiUrlConfigView { urls: self.urls, active_index: index }
    }

    /// The list with `entry` added at its end; the selection stays.
    pub open spec fn append(self, entry: ApiUrlView) -> ApiUrlConfigView {
        ApiUrlConfigView { urls: self.urls.push(entry), active_index: self.active_index }
    }

    /// The list without the entry at `index`. The selection goes back to the
    /// first entry when the selected entry is the one removed, or when the
    /// index would no longer point into the list; otherwise it stays.
    pub open spec fn remove(self, index: int) -> ApiUrlConfigView {
        ApiUrlConfigView {
            urls: self.urls.remove(index),
            active_index: if self.active_index == index || self.active_index >= self.urls.len()
                - 1 {
                0
            } else {
                self.active_index
            },
        }
    }
}

impl View for ApiUrlConfig {
    type V = ApiUrlConfigView;

    open spec fn view(&self) -> ApiUrlConfigView {
        ApiUrlConfigView { urls: self.urls.deep_view(), active_index: self.active_index as nat }
    }
}

impl Clone for ApiUrlConfig {
    fn clone(&self) -> (r: Self)
        ensures
            r@ == self@,
    {
        let r = ApiUrlConfig { urls: self.urls.clone(), active_index: self.active_index };
        assert(r.urls.deep_view() =~= self.urls.deep_view());
        r
    }
}

impl Default for ApiUrlConfig {
    /// The built-in endpoint alone, selected.
    fn default() -> (r: Self)
        ensures
            r@ == (ApiUrlConfigView { urls: default_endpoints(), active_index: 0 }),
    {
        ApiUrlConfig { urls: default_api_server_urls(), active_index: 0 }
    }
}

impl ApiUrlConfig {
    /// The URL in use. An empty list and an index past the end are resolved
    /// here, for the caller only: the stored list is not changed.
    pub fn active_url(&self) -> (r: String)
        ensures
            r@ == self@.active_url(),
    {
        if self.urls.is_empty() {
            return "https://mememeow.morami.icu".to_string();
        }
        let index = if self.active_index < self.urls.len() {
            self.active_index
        } else {
            0
        };
        self.urls[index].url.clone()
    }

    /// Selects the entry at `index`. An index that names no entry is refused
    /// and leaves the list as it was.
    pub fn select(&mut self, index: usize) -> (r: Result<(), ConfigError>)
        ensures
            index < old(self)@.urls.len() ==> r is Ok && final(self)@ == old(self)@.select(
                index as nat,
            ),
            index >= old(self)@.urls.len() ==> r == Err::<(), ConfigError>(
                ConfigError::IndexOutOfRange,
            ) && final(self)@ == old(self)@,
    {
        if index < self.urls.len() {
            self.active_index = index;
            Ok(())
        } else {
            Err(ConfigError::IndexOutOfRange)
        }
    }

    /// Adds an endpoint at the end of the list.
    pub fn append(&mut self, name: String, url: String)
        ensures
            final(self)@ == old(self)@.append(ApiUrlView { name: name@, url: url@ }),
    {
        self.urls.push(ApiUrl { name, url });
        assert(self.urls.deep_view() =~= old(self).urls.deep_view().push(
            ApiUrlView { name: name@, url: url@ },
        ));
    }

    /// Removes the entry at `index`. An index that names no entry is refused
    /// and leaves the list as it was.
    pub fn remove(&mut self, index: usize) -> (r: Result<(), ConfigError>)
        ensures
            index < old(self)@.urls.len() ==> r is Ok && final(self)@ == old(self)@.remove(
                index as int,
            ),
            index >= old(self)@.urls.len() ==> r == Err::<(), ConfigError>(
                ConfigError::IndexOutOfRange,
            ) && final(self)@ == old(self)@,
    {
        if index < self.urls.len() {
            let was_active = self.active_index == index;
            self.urls.remove(index);
            if was_active || self.active_index >= self.urls.len() {
                self.active_index = 0;
            }
            assert(self.urls.deep_view() =~= old(self).urls.deep_view().remove(index as int));
            Ok(())
        } else {
            Err(ConfigError::IndexOutOfRange)
        }
    }
}

/// Removing the selected entry leaves the first entry selected, whatever the
/// length of the list.
pub proof fn lemma_remove_selected_resets(list: ApiUrlConfigView)
    requires
        list.active_index < list.urls.len(),
    ensures
        list.remove(list.active_index as int).active_index == 0,
{
}

/// A removal leaves a valid selection behind, whatever the selection was.
pub proof fn lemma_remove_restores_selection(list: ApiUrlConfigView, index: int)
    requires
        0 <= index < list.urls.len(),
    ensures
        list.remove(index).selection_valid(),
{
}

/// Selecting an entry of the list gives a valid selection.
pub proof fn lemma_select_is_valid(list: ApiUrlConfigView, index: nat)
    requires
        index < list.urls.len(),
    ensures
        list.select(index).selection_valid(),
        list.select(index).active_url() == list.urls[index as int].url,
{
}

/// Adding an entry keeps a valid selection valid.
pub proof fn lemma_append_keeps_selection(list: ApiUrlConfigView, entry: ApiUrlView)
    requires
        list.selection_valid(),
    ensures
        list.append(entry).selection_valid(),
{
}

/// An empty list resolves to the built-in URL, whatever the stored index.
pub proof fn lemma_empty_list_resolves_to_default(list: ApiUrlConfigView)
    requires
        list.urls.len() == 0,
    ensures
        list.active_url() == default_endpoint_url(),
{
}

} // verus!
