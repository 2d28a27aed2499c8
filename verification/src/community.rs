//! The community's meme libraries: the manifest that lists them, the set of
//! libraries that the user has enabled, and the decisions around the files
//! that hold both.

use std::collections::HashMap;
use vstd::prelude::*;
use vstd::string::StringExecFns;

use crate::fetch::{AttemptOutcome, AttemptOutcomeView};

verus! {

/// Where the community's resources are found and when the manifest was made.
#[derive(Debug, PartialEq, Eq)]
pub struct CommunityInfo {
    pub resource_url: String,
    pub update_url: String,
    pub timestamp: u64,
}

/// One meme library of the community.
#[derive(Debug, PartialEq, Eq)]
pub struct MemeLib {
    pub name: String,
    pub version: String,
    pub author: String,
    pub description: String,
    pub created_at: String,
    pub timestamp: u64,
    pub tags: Vec<String>,
    pub url: String,
    pub update_url: String,
    pub uuid: String,
}

/// The list of the community's meme libraries, by identifier.
#[derive(Debug, PartialEq, Eq)]
pub struct CommunityManifest {
    pub community_info: CommunityInfo,
    pub meme_libs: HashMap<String, MemeLib>,
}

/// What went wrong around the manifest or the set of enabled libraries.
#[derive(Clone, Copy, Debug, PartialEq, Eq, Structural)]
pub enum CommunityFailure {
    /// The system names no cache directory.
    NoCacheDir,
    /// The system names no configuration directory.
    NoConfigDir,
    /// There is no cached manifest.
    CacheMissing,
    /// The cache directory could not be created.
    CacheDirCreate,
    /// The configuration directory could not be created.
    ConfigDirCreate,
    /// The cached manifest could not be written.
    CacheWrite,
    /// The cached manifest could not be read.
    CacheRead,
    /// The cached manifest is not a manifest.
    CacheParse,
    /// The request for the manifest failed.
    Download,
    /// The server answered the request for the manifest with a status that
    /// does not stand for success.
    DownloadStatus,
    /// The body of the server's answer could not be read.
    DownloadBody,
    /// The server's answer is not a manifest.
    DownloadParse,
    /// The file of enabled libraries could not be read.
    EnabledRead,
    /// The set of enabled libraries could not be written as text.
    EnabledSerialize,
    /// The file of enabled libraries could not be written.
    EnabledWrite,
}

/// The words with which the message for a failure begins.
pub open spec fn failure_prefix(failure: CommunityFailure) -> Seq<char> {
    match failure {
        CommunityFailure::NoCacheDir => "无法获取系统缓存目录"@,
        CommunityFailure::NoConfigDir => "无法获取系统配置目录"@,
        CommunityFailure::CacheMissing => "缓存文件不存在"@,
        CommunityFailure::CacheDirCreate => "创建缓存目录失败: "@,
        CommunityFailure::ConfigDirCreate => "创建配置目录失败: "@,
        CommunityFailure::CacheWrite => "写入缓存文件失败: "@,
        CommunityFailure::CacheRead => "读取缓存文件失败: "@,
        CommunityFailure::CacheParse => "解析缓存的JSON失败: "@,
        CommunityFailure::Download => "下载失败: "@,
        CommunityFailure::DownloadStatus => "下载失败: 状态码 "@,
        CommunityFailure::DownloadBody => "读取内容失败: "@,
        CommunityFailure::DownloadParse => "解析JSON失败: "@,
        CommunityFailure::EnabledRead => "读取配置失败: "@,
        CommunityFailure::EnabledSerialize => "序列化配置失败: "@,
        CommunityFailure::EnabledWrite => "保存配置失败: "@,
    }
}

impl CommunityFailure {
    /// The words with which the message for the failure begins.
    pub fn prefix(&self) -> (r: &'static str)
        ensures
            r@ == failure_prefix(*self),
    {
        match self {
            CommunityFailure::NoCacheDir => "无法获取系统缓存目录",
            CommunityFailure::NoConfigDir => "无法获取系统配置目录",
            CommunityFailure::CacheMissing => "缓存文件不存在",
            CommunityFailure::CacheDirCreate => "创建缓存目录失败: ",
            CommunityFailure::ConfigDirCreate => "创建配置目录失败: ",
            CommunityFailure::CacheWrite => "写入缓存文件失败: ",
            CommunityFailure::CacheRead => "读取缓存文件失败: ",
            CommunityFailure::CacheParse => "解析缓存的JSON失败: ",
            CommunityFailure::Download => "下载失败: ",
            CommunityFailure::DownloadStatus => "下载失败: 状态码 ",
            CommunityFailure::DownloadBody => "读取内容失败: ",
            CommunityFailure::DownloadParse => "解析JSON失败: ",
            CommunityFailure::EnabledRead => "读取配置失败: ",
            CommunityFailure::EnabledSerialize => "序列化配置失败: ",
            CommunityFailure::EnabledWrite => "保存配置失败: ",
        }
    }
}

/// A failure with the words of whatever reported it. The detail is empty
/// where nothing reported anything.
#[derive(Debug, PartialEq, Eq)]
pub struct CommunityError {
    pub failure: CommunityFailure,
    pub detail: String,
}

/// Mathematical model of a [`CommunityError`].
pub struct CommunityErrorView {
    pub failure: CommunityFailure,
    pub detail: Seq<char>,
}

impl CommunityErrorView {
    /// The message that the user sees for the error.
    pub open spec fn text(self) -> Seq<char> {
        failure_prefix(self.failure) + self.detail
    }
}

impl View for CommunityError {
    type V = CommunityErrorView;

    open spec fn view(&self) -> CommunityErrorView {
        CommunityErrorView { failure: self.failure, detail: self.detail@ }
    }
}

impl CommunityError {
    /// The error for `failure`, as reported in `detail`.
    pub fn new(failure: CommunityFailure, detail: String) -> (r: CommunityError)
        ensures
            r@ == (CommunityErrorView { failure, detail: detail@ }),
    {
        CommunityError { failure, detail }
    }

    /// The message that the user sees for the error.
    pub fn message(&self) -> (r: String)
        ensures
            r@ == self@.text(),
    {
        self.failure.prefix().to_string().concat(self.detail.as_str())
    }
}

/// Where the manifest comes from.
#[derive(Debug, PartialEq, Eq)]
pub enum ManifestStep {
    /// The cache held a manifest: it is the answer.
    UseCached(CommunityManifest),
    /// The cache gave nothing: the manifest has to be downloaded.
    Download,
}

/// Decides where the manifest comes from, given what reading the cache came
/// to. Whatever kept the cache from answering, the manifest is downloaded.
pub fn after_cache_read(cached: Result<CommunityManifest, CommunityError>) -> (r: ManifestStep)
    ensures
        match cached {
            Ok(manifest) => r == ManifestStep::UseCached(manifest),
            Err(_) => r == ManifestStep::Download,
        },
{
    match cached {
        Ok(manifest) => ManifestStep::UseCached(manifest),
        Err(_) => ManifestStep::Download,
    }
}

/// The failure that a request for the manifest came to, if it came to one.
pub open spec fn download_failure_of(outcome: AttemptOutcomeView) -> Option<CommunityErrorView> {
    match outcome {
        AttemptOutcomeView::RequestFailed(e) => Some(
            CommunityErrorView { failure: CommunityFailure::Download, detail: e },
        ),
        AttemptOutcomeView::BadStatus(s) => Some(
            CommunityErrorView { failure: CommunityFailure::DownloadStatus, detail: s },
        ),
        AttemptOutcomeView::BodyUnreadable(e) => Some(
            CommunityErrorView { failure: CommunityFailure::DownloadBody, detail: e },
        ),
        AttemptOutcomeView::Body(_) => None,
    }
}

/// Sorts out what the request for the manifest came to: the text of the
/// manifest, or the failure.
pub fn manifest_text(outcome: AttemptOutcome) -> (r: Result<String, CommunityError>)
    ensures
        match r {
            Ok(text) => outcome@ == AttemptOutcomeView::Body(text@),
            Err(error) => download_failure_of(outcome@) == Some(error@),
        },
{
    match outcome {
        AttemptOutcome::RequestFailed(e) => Err(CommunityError::new(CommunityFailure::Download, e)),
        AttemptOutcome::BadStatus(s) => Err(
            CommunityError::new(CommunityFailure::DownloadStatus, s),
        ),
        AttemptOutcome::BodyUnreadable(e) => Err(
            CommunityError::new(CommunityFailure::DownloadBody, e),
        ),
        AttemptOutcome::Body(text) => Ok(text),
    }
}

/// The libraries that the user has enabled, by identifier. No identifier is
/// held twice.
#[derive(Debug)]
pub struct EnabledMemeLibs {
    enabled_libs: Vec<String>,
}

impl View for EnabledMemeLibs {
    type V = Set<Seq<char>>;

    closed spec fn view(&self) -> Set<Seq<char>> {
        self.enabled_libs.deep_view().to_set()
    }
}

impl EnabledMemeLibs {
    #[verifier::type_invariant]
    spec fn distinct(self) -> bool {
        self.enabled_libs.deep_view().no_duplicates()
    }

    /// The empty set.
    pub fn new() -> (r: EnabledMemeLibs)
        ensures
            r@ == Set::<Seq<char>>::empty(),
    {
        let r = EnabledMemeLibs { enabled_libs: Vec::new() };
        assert(r.enabled_libs.deep_view().to_set() =~= Set::<Seq<char>>::empty());
        r
    }

    /// The position of `uuid` in the list, if it is held.
    fn position(&self, uuid: &str) -> (r: Option<usize>)
        ensures
            match r {
                Some(at) => at < self.enabled_libs.len() && self.enabled_libs[at as int]@ == uuid@,
                None => !self@.contains(uuid@),
            },
    {
        let mut i: usize = 0;
        while i < self.enabled_libs.len()
            invariant
                i <= self.enabled_libs.len(),
                forall|j: int| 0 <= j < i ==> (#[trigger] self.enabled_libs[j])@ != uuid@,
            decreases self.enabled_libs.len() - i,
        {
            if self.enabled_libs[i].as_str().eq(uuid) {
                return Some(i);
            }
            i += 1;
        }
        assert(!self.enabled_libs.deep_view().contains(uuid@)) by {
            if self.enabled_libs.deep_view().contains(uuid@) {
                let j = choose|j: int|
                    0 <= j < self.enabled_libs.deep_view().len()
                        && self.enabled_libs.deep_view()[j] == uuid@;
                assert(self.enabled_libs[j]@ == uuid@);
            }
        }
        None
    }

    /// Whether the library `uuid` is enabled.
    pub fn contains(&self, uuid: &str) -> (r: bool)
        ensures
            r == self@.contains(uuid@),
    {
        match self.position(uuid) {
            Some(at) => {
                assert(self.enabled_libs.deep_view()[at as int] == uuid@);
                true
            },
            None => false,
        }
    }

    /// The number of enabled libraries.
    pub fn len(&self) -> (r: usize)
        ensures
            r == self@.len(),
    {
        proof {
            use_type_invariant(self);
            self.enabled_libs.deep_view().unique_seq_to_set();
        }
        self.enabled_libs.len()
    }

    /// Enables the library `uuid`. Enabling a library twice is the same as
    /// enabling it once.
    pub fn enable(&mut self, uuid: &str)
        ensures
            final(self)@ == old(self)@.insert(uuid@),
    {
        proof {
            use_type_invariant(&*self);
        }
        match self.position(uuid) {
            Some(at) => {
                assert(self.enabled_libs.deep_view()[at as int] == uuid@);
                assert(self@ =~= old(self)@.insert(uuid@));
            },
            None => {
                let ghost before = self.enabled_libs.deep_view();
                let mut libs = self.enabled_libs.clone();
                assert(libs.deep_view() =~= before);
                libs.push(uuid.to_string());
                assert(libs.deep_view() =~= before.push(uuid@));
                self.enabled_libs = libs;
                assert(self@ =~= old(self)@.insert(uuid@)) by {
                    assert forall|s: Seq<char>|
                        before.push(uuid@).contains(s) <==> (s == uuid@ || before.contains(
                            s,
                        )) by {
                        if before.push(uuid@).contains(s) {
                            let j = choose|j: int|
                                0 <= j < before.push(uuid@).len() && before.push(uuid@)[j] == s;
                            if j < before.len() {
                                assert(before[j] == s);
                            }
                        }
                        if before.contains(s) {
                            let j = choose|j: int| 0 <= j < before.len() && before[j] == s;
                            assert(before.push(uuid@)[j] == s);
                        }
                        if s == uuid@ {
                            assert(before.push(uuid@)[before.len() as int] == s);
                        }
                    }
                }
            },
        }
    }

    /// Disables the library `uuid`. Disabling a library that is not enabled
    /// changes nothing.
    pub fn disable(&mut self, uuid: &str)
        ensures
            final(self)@ == old(self)@.remove(uuid@),
    {
        proof {
            use_type_invariant(&*self);
        }
        match self.position(uuid) {
            Some(at) => {
                let ghost before = self.enabled_libs.deep_view();
                let mut libs = self.enabled_libs.clone();
                assert(libs.deep_view() =~= before);
                libs.remove(at);
                let ghost after = libs.deep_view();
                assert(after =~= before.remove(at as int));
                self.enabled_libs = libs;
                assert(self@ =~= old(self)@.remove(uuid@)) by {
                    assert forall|s: Seq<char>|
                        after.contains(s) <==> (s != uuid@ && before.contains(s)) by {
                        if after.contains(s) {
                            let j = choose|j: int| 0 <= j < after.len() && after[j] == s;
                            let k = if j < at {
                                j
                            } else {
                                j + 1
                            };
                            assert(before[k] == s);
                            assert(before[at as int] == uuid@);
                            assert(before[k] != before[at as int]);
                        }
                        if s != uuid@ && before.contains(s) {
                            let j = choose|j: int| 0 <= j < before.len() && before[j] == s;
                            if j < at {
                                assert(after[j] == s);
                            } else {
                                assert(after[j - 1] == s);
                            }
                        }
                    }
                }
            },
            None => {
                assert(self@ =~= old(self)@.remove(uuid@));
            },
        }
    }

    /// The set that holds the identifiers of `uuids`.
    pub fn from_list(uuids: Vec<String>) -> (r: EnabledMemeLibs)
        ensures
            r@ == uuids.deep_view().to_set(),
    {
        let mut libs = EnabledMemeLibs::new();
        let mut i: usize = 0;
        while i < uuids.len()
            invariant
                i <= uuids.len(),
                libs@ == uuids.deep_view().take(i as int).to_set(),
            decreases uuids.len() - i,
        {
            libs.enable(uuids[i].as_str());
            proof {
                let shorter = uuids.deep_view().take(i as int);
                let longer = uuids.deep_view().take(i + 1);
                assert(longer =~= shorter.push(uuids[i as int]@));
                assert(longer.to_set() =~= shorter.to_set().insert(uuids[i as int]@)) by {
                    assert forall|s: Seq<char>|
                        longer.contains(s) <==> (s == uuids[i as int]@ || shorter.contains(
                            s,
                        )) by {
                        if longer.contains(s) {
                            let j = choose|j: int| 0 <= j < longer.len() && longer[j] == s;
                            if j < shorter.len() {
                                assert(shorter[j] == s);
                            }
                        }
                        if shorter.contains(s) {
                            let j = choose|j: int| 0 <= j < shorter.len() && shorter[j] == s;
                            assert(longer[j] == s);
                        }
                        if s == uuids[i as int]@ {
                            assert(longer[i as int] == s);
                        }
                    }
                }
            }
            i += 1;
        }
        assert(uuids.deep_view().take(i as int) =~= uuids.deep_view());
        libs
    }

    /// The identifiers of the enabled libraries, each once.
    pub fn to_list(&self) -> (r: Vec<String>)
        ensures
            r.deep_view().to_set() == self@,
            r.deep_view().no_duplicates(),
    {
        proof {
            use_type_invariant(self);
        }
        let r = self.enabled_libs.clone();
        assert(r.deep_view() =~= self.enabled_libs.deep_view());
        r
    }
}

impl Default for EnabledMemeLibs {
    fn default() -> (r: Self)
        ensures
            r@ == Set::<Seq<char>>::empty(),
    {
        EnabledMemeLibs::new()
    }
}

/// What reading the file of enabled libraries came to.
#[derive(Debug, PartialEq, Eq)]
pub enum EnabledFile {
    /// There is no file yet.
    Missing,
    /// The file is there but could not be read; the reason is attached.
    Unreadable(String),
    /// The file was read but does not hold a set of identifiers.
    Malformed,
    /// The file held these identifiers.
    Loaded(Vec<String>),
}

/// The set of enabled libraries that the application works with, given what
/// reading the file came to, and whether the file has to be written anew
/// from that set. A missing file stands for the empty set and is created; a
/// file with other contents stands for the empty set and is left alone; a
/// file that cannot be read is an error.
pub fn load_enabled(file: EnabledFile) -> (r: Result<(EnabledMemeLibs, bool), CommunityError>)
    ensures
        match file {
            EnabledFile::Missing => r is Ok && r->Ok_0.0@ == Set::<Seq<char>>::empty()
                && r->Ok_0.1,
            EnabledFile::Unreadable(reason) => r is Err && r->Err_0@ == (CommunityErrorView {
                failure: CommunityFailure::EnabledRead,
                detail: reason@,
            }),
            EnabledFile::Malformed => r is Ok && r->Ok_0.0@ == Set::<Seq<char>>::empty()
                && !r->Ok_0.1,
            EnabledFile::Loaded(uuids) => r is Ok && r->Ok_0.0@ == uuids.deep_view().to_set()
                && !r->Ok_0.1,
        },
{
    match file {
        EnabledFile::Missing => Ok((EnabledMemeLibs::new(), true)),
        EnabledFile::Unreadable(reason) => Err(
            CommunityError::new(CommunityFailure::EnabledRead, reason),
        ),
        EnabledFile::Malformed => Ok((EnabledMemeLibs::new(), false)),
        EnabledFile::Loaded(uuids) => Ok((EnabledMemeLibs::from_list(uuids), false)),
    }
}

} // verus!
