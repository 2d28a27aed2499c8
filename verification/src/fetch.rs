//! The decisions of a download that falls back from one source to the next.
//!
//! The candidates are tried in the order given, each with the same time
//! limit. When all of them have failed the limit is doubled and the pass is
//! repeated, until the doubled limit would lie above the ceiling. The first
//! body that arrives ends the download.
//!
//! The requests themselves are made by the caller: [`FallbackDownload`] says
//! which request comes next and is told what it came to.

use vstd::prelude::*;
use vstd::string::StringExecFns;

verus! {

/// The time limits of a download, in seconds: the limit of the first pass and
/// the ceiling that no pass may exceed.
#[derive(Clone, Copy, Debug, PartialEq, Eq)]
pub struct RetryPolicy {
    floor: u64,
    ceiling: u64,
}

impl RetryPolicy {
    #[verifier::type_invariant]
    spec fn ordered(self) -> bool {
        1 <= self.floor <= self.ceiling
    }

    /// The limit of the first pass.
    pub closed spec fn floor_secs(self) -> nat {
        self.floor as nat
    }

    /// The limit that no pass exceeds.
    pub closed spec fn ceiling_secs(self) -> nat {
        self.ceiling as nat
    }

    /// A policy with the given limits, if the first limit is at least one
    /// second and not above the ceiling.
    pub fn new(floor: u64, ceiling: u64) -> (r: Option<RetryPolicy>)
        ensures
            r is Some <==> 1 <= floor <= ceiling,
            r is Some ==> r->0.floor_secs() == floor && r->0.ceiling_secs() == ceiling,
    {
        if 1 <= floor && floor <= ceiling {
            Some(RetryPolicy { floor, ceiling })
        } else {
            None
        }
    }

    /// Three seconds for the first pass, ten seconds at most.
    pub fn standard() -> (r: RetryPolicy)
        ensures
            r.floor_secs() == 3,
            r.ceiling_secs() == 10,
    {
        RetryPolicy { floor: 3, ceiling: 10 }
    }

    /// The limit of the first pass.
    pub fn floor(&self) -> (r: u64)
        ensures
            r == self.floor_secs(),
            r >= 1,
    {
        proof {
            use_type_invariant(self);
        }
        self.floor
    }

    /// The limit that no pass exceeds.
    pub fn ceiling(&self) -> (r: u64)
        ensures
            r == self.ceiling_secs(),
            r >= self.floor_secs(),
    {
        proof {
            use_type_invariant(self);
        }
        self.ceiling
    }
}

/// The number of passes that a download makes when every request fails and
/// the current pass has the limit `timeout`: the limits `timeout`,
/// `2 * timeout`, `4 * timeout`, ... as long as they do not exceed `ceiling`.
pub open spec fn tier_count(timeout: nat, ceiling: nat) -> nat
    decreases
        (if timeout <= ceiling {
            ceiling + 1 - timeout
        } else {
            0
        }),
{
    if timeout == 0 || timeout > ceiling {
        0
    } else {
        1 + tier_count(2 * timeout, ceiling)
    }
}

/// Two to the power `k`.
pub open spec fn pow2(k: nat) -> nat
    decreases k,
{
    if k == 0 {
        1
    } else {
        2 * pow2((k - 1) as nat)
    }
}

/// What one request came to.
#[derive(Debug, PartialEq, Eq)]
pub enum AttemptOutcome {
    /// The request could not be sent, or no answer came within the limit.
    RequestFailed(String),
    /// An answer came, with a status that does not stand for success.
    BadStatus(String),
    /// An answer came with a success status, but its body could not be read.
    BodyUnreadable(String),
    /// The body of an answer with a success status.
    Body(String),
}

/// Mathematical model of an [`AttemptOutcome`].
pub enum AttemptOutcomeView {
    RequestFailed(Seq<char>),
    BadStatus(Seq<char>),
    BodyUnreadable(Seq<char>),
    Body(Seq<char>),
}

impl View for AttemptOutcome {
    type V = AttemptOutcomeView;

    open spec fn view(&self) -> AttemptOutcomeView {
        match self {
            AttemptOutcome::RequestFailed(e) => AttemptOutcomeView::RequestFailed(e@),
            AttemptOutcome::BadStatus(s) => AttemptOutcomeView::BadStatus(s@),
            AttemptOutcome::BodyUnreadable(e) => AttemptOutcomeView::BodyUnreadable(e@),
            AttemptOutcome::Body(b) => AttemptOutcomeView::Body(b@),
        }
    }
}

impl AttemptOutcomeView {
    /// The body if the request succeeded, the reason of the failure if not.
    /// All three kinds of failure count alike; only the wording differs.
    pub open spec fn verdict(self) -> Result<Seq<char>, Seq<char>> {
        match self {
            AttemptOutcomeView::RequestFailed(e) => Err("请求失败: "@ + e),
            AttemptOutcomeView::BadStatus(s) => Err("状态码错误: "@ + s),
            AttemptOutcomeView::BodyUnreadable(e) => Err("读取响应内容失败: "@ + e),
            AttemptOutcomeView::Body(b) => Ok(b),
        }
    }
}

/// Whether an HTTP status code stands for success: the codes 200 to 299.
pub open spec fn status_is_success(code: u16) -> bool {
    200 <= code < 300
}

/// Whether an HTTP status code stands for success.
pub fn is_success_status(code: u16) -> (r: bool)
    ensures
        r == status_is_success(code),
{
    200 <= code && code < 300
}

impl AttemptOutcome {
    /// The body if the request succeeded, the reason of the failure if not.
    pub fn into_result(self) -> (r: Result<String, String>)
        ensures
            result_text(r) == self@.verdict(),
    {
        match self {
            AttemptOutcome::RequestFailed(e) => Err("请求失败: ".to_string().concat(e.as_str())),
            AttemptOutcome::BadStatus(s) => Err("状态码错误: ".to_string().concat(s.as_str())),
            AttemptOutcome::BodyUnreadable(e) => Err(
                "读取响应内容失败: ".to_string().concat(e.as_str()),
            ),
            AttemptOutcome::Body(b) => Ok(b),
        }
    }
}

/// The characters of a body or of a reason.
pub open spec fn result_text(r: Result<String, String>) -> Result<Seq<char>, Seq<char>> {
    match r {
        Ok(body) => Ok(body@),
        Err(reason) => Err(reason@),
    }
}

/// Why a download ended without a body.
#[derive(Debug, PartialEq, Eq)]
pub enum FetchError {
    /// No candidate was given.
    NoCandidates,
    /// The transport could not be set up for a pass; the reason is attached.
    ClientUnavailable(String),
    /// Every candidate failed in every pass. The reason of the last failure
    /// is attached.
    Exhausted(String),
}

/// Mathematical model of a [`FetchError`].
pub enum FetchErrorView {
    NoCandidates,
    ClientUnavailable(Seq<char>),
    Exhausted(Seq<char>),
}

impl View for FetchError {
    type V = FetchErrorView;

    open spec fn view(&self) -> FetchErrorView {
        match self {
            FetchError::NoCandidates => FetchErrorView::NoCandidates,
            FetchError::ClientUnavailable(e) => FetchErrorView::ClientUnavailable(e@),
            FetchError::Exhausted(e) => FetchErrorView::Exhausted(e@),
        }
    }
}

impl FetchErrorView {
    /// The message that the user sees for the error.
    pub open spec fn text(self) -> Seq<char> {
        match self {
            FetchErrorView::NoCandidates => "URL列表为空"@,
            FetchErrorView::ClientUnavailable(e) => "创建HTTP客户端失败: "@ + e,
            FetchErrorView::Exhausted(_) => "无法从任何提供的URL下载内容"@,
        }
    }
}

impl Clone for FetchError {
    fn clone(&self) -> (r: Self)
        ensures
            r@ == self@,
    {
        match self {
            FetchError::NoCandidates => FetchError::NoCandidates,
            FetchError::ClientUnavailable(e) => FetchError::ClientUnavailable(e.clone()),
            FetchError::Exhausted(e) => FetchError::Exhausted(e.clone()),
        }
    }
}

impl FetchError {
    /// The message that the user sees for the error.
    pub fn message(&self) -> (r: String)
        ensures
            r@ == self@.text(),
    {
        match self {
            FetchError::NoCandidates => "URL列表为空".to_string(),
            FetchError::ClientUnavailable(e) => "创建HTTP客户端失败: ".to_string().concat(
                e.as_str(),
            ),
            FetchError::Exhausted(_) => "无法从任何提供的URL下载内容".to_string(),
        }
    }
}

/// The request that a download makes next.
#[derive(Debug, PartialEq, Eq)]
pub struct Attempt {
    /// The candidate to ask.
    pub url: String,
    /// The time limit of the request, in seconds.
    pub timeout_secs: u64,
    /// Whether the request is the first of its pass, so that the transport
    /// has to be set up anew with `timeout_secs`.
    pub opens_tier: bool,
}

/// Mathematical model of an [`Attempt`].
pub struct AttemptView {
    pub url: Seq<char>,
    pub timeout_secs: nat,
    pub opens_tier: bool,
}

impl View for Attempt {
    type V = AttemptView;

    open spec fn view(&self) -> AttemptView {
        AttemptView {
            url: self.url@,
            timeout_secs: self.timeout_secs as nat,
            opens_tier: self.opens_tier,
        }
    }
}

/// Mathematical model of a [`FallbackDownload`]: the candidates, the ceiling,
/// the limit of the current pass, the position in it, and the result once
/// there is one.
pub struct DownloadView {
    pub candidates: Seq<Seq<char>>,
    pub ceiling: nat,
    pub timeout: nat,
    pub index: nat,
    pub result: Option<Result<Seq<char>, FetchErrorView>>,
}

impl DownloadView {
    /// The download at its start.
    pub open spec fn start(candidates: Seq<Seq<char>>, floor: nat, ceiling: nat) -> DownloadView {
        DownloadView {
            candidates,
            ceiling,
            timeout: floor,
            index: 0,
            result: if candidates.len() == 0 {
                Some(Err(FetchErrorView::NoCandidates))
            } else {
                None
            },
        }
    }

    /// Whether the download still has a request to make.
    pub open spec fn running(self) -> bool {
        self.result is None
    }

    /// What holds of every download that is under way: the position is a
    /// candidate and the limit lies between one second and the ceiling.
    pub open spec fn well_formed(self) -> bool {
        self.running() ==> self.index < self.candidates.len() && 1 <= self.timeout <= self.ceiling
    }

    /// The next request, if the download is under way.
    pub open spec fn next_attempt(self) -> Option<AttemptView> {
        if self.running() {
            Some(
                AttemptView {
                    url: self.candidates[self.index as int],
                    timeout_secs: self.timeout,
                    opens_tier: self.index == 0,
                },
            )
        } else {
            None
        }
    }

    /// The download after a body has arrived: it ends with that body.
    pub open spec fn after_success(self, body: Seq<char>) -> DownloadView {
        if self.running() {
            DownloadView { result: Some(Ok(body)), ..self }
        } else {
            self
        }
    }

    /// The download after a request has failed: it moves to the next
    /// candidate; after the last candidate it starts over with twice the
    /// limit; and where twice the limit exceeds the ceiling it ends, keeping
    /// the reason of this last failure.
    pub open spec fn after_failure(self, reason: Seq<char>) -> DownloadView {
        if !self.running() {
            self
        } else if self.index + 1 < self.candidates.len() {
            DownloadView { index: self.index + 1, ..self }
        } else if 2 * self.timeout <= self.ceiling {
            DownloadView { timeout: 2 * self.timeout, index: 0, ..self }
        } else {
            DownloadView { result: Some(Err(FetchErrorView::Exhausted(reason))), ..self }
        }
    }

    /// The download after the transport could not be set up: it ends.
    pub open spec fn after_client_failure(self, reason: Seq<char>) -> DownloadView {
        if self.running() {
            DownloadView { result: Some(Err(FetchErrorView::ClientUnavailable(reason))), ..self }
        } else {
            self
        }
    }

    /// The download after one request, whatever it came to.
    pub open spec fn after(self, outcome: AttemptOutcomeView) -> DownloadView {
        match outcome.verdict() {
            Ok(body) => self.after_success(body),
            Err(reason) => self.after_failure(reason),
        }
    }

    /// The download after a run of failed requests, one reason each.
    pub open spec fn after_failures(self, reasons: Seq<Seq<char>>) -> DownloadView
        decreases reasons.len(),
    {
        if reasons.len() == 0 {
            self
        } else {
            self.after_failures(reasons.drop_last()).after_failure(reasons.last())
        }
    }

    /// The number of requests that a download under way makes from here on if
    /// every one of them fails: the rest of the current pass and one full pass
    /// for each limit that is still to come.
    pub open spec fn attempts_left(self) -> nat {
        if self.running() {
            (self.candidates.len() - self.index + self.candidates.len() * (tier_count(
                self.timeout,
                self.ceiling,
            ) - 1)) as nat
        } else {
            0
        }
    }
}

/// The characters of a download's result.
pub open spec fn outcome_text(result: Option<Result<String, FetchError>>) -> Option<
    Result<Seq<char>, FetchErrorView>,
> {
    match result {
        None => None,
        Some(Ok(body)) => Some(Ok(body@)),
        Some(Err(error)) => Some(Err(error@)),
    }
}

/// A download from a list of candidate URLs, from its first request to its
/// result.
pub struct FallbackDownload {
    urls: Vec<String>,
    ceiling: u64,
    timeout: u64,
    index: usize,
    result: Option<Result<String, FetchError>>,
}

impl View for FallbackDownload {
    type V = DownloadView;

    closed spec fn view(&self) -> DownloadView {
        DownloadView {
            candidates: self.urls.deep_view(),
            ceiling: self.ceiling as nat,
            timeout: self.timeout as nat,
            index: self.index as nat,
            result: outcome_text(self.result),
        }
    }
}

impl FallbackDownload {
    #[verifier::type_invariant]
    spec fn consistent(self) -> bool {
        self@.well_formed()
    }

    /// A download from `urls` with the standard limits: three seconds for the
    /// first pass, ten seconds at most.
    pub fn new(urls: Vec<String>) -> (r: FallbackDownload)
        ensures
            r@ == DownloadView::start(urls.deep_view(), 3, 10),
            r@.well_formed(),
    {
        FallbackDownload::with_policy(urls, RetryPolicy::standard())
    }

    /// A download from `urls` with the limits of `policy`.
    pub fn with_policy(urls: Vec<String>, policy: RetryPolicy) -> (r: FallbackDownload)
        ensures
            r@ == DownloadView::start(urls.deep_view(), policy.floor_secs(), policy.ceiling_secs()),
            r@.well_formed(),
    {
        let result = if urls.is_empty() {
            Some(Err(FetchError::NoCandidates))
        } else {
            None
        };
        FallbackDownload {
            urls,
            ceiling: policy.ceiling(),
            timeout: policy.floor(),
            index: 0,
            result,
        }
    }

    /// The request to make next, or `None` when the download has ended.
    pub fn next_attempt(&self) -> (r: Option<Attempt>)
        ensures
            r.deep_view() == self@.next_attempt(),
            self@.well_formed(),
    {
        proof {
            use_type_invariant(self);
        }
        if self.result.is_none() {
            Some(
                Attempt {
                    url: self.urls[self.index].clone(),
                    timeout_secs: self.timeout,
                    opens_tier: self.index == 0,
                },
            )
        } else {
            None
        }
    }

    /// Takes note of what the request of [`next_attempt`](Self::next_attempt)
    /// came to. A download that has ended stays as it is.
    pub fn record(&mut self, outcome: AttemptOutcome)
        ensures
            final(self)@ == old(self)@.after(outcome@),
            final(self)@.well_formed(),
    {
        proof {
            use_type_invariant(&*self);
        }
        if self.result.is_some() {
            return ;
        }
        assert(self.index < self.urls.len());
        match outcome.into_result() {
            Ok(body) => {
                self.result = Some(Ok(body));
            },
            Err(reason) => {
                if self.index + 1 < self.urls.len() {
                    self.index = self.index + 1;
                } else if self.timeout <= self.ceiling / 2 {
                    self.timeout = self.timeout * 2;
                    self.index = 0;
                } else {
                    self.result = Some(Err(FetchError::Exhausted(reason)));
                }
            },
        }
    }

    /// Takes note that the transport could not be set up for the pass that
    /// the next request would have opened: the download ends.
    pub fn record_client_failure(&mut self, reason: String)
        ensures
            final(self)@ == old(self)@.after_client_failure(reason@),
            final(self)@.well_formed(),
    {
        proof {
            use_type_invariant(&*self);
        }
        if self.result.is_none() {
            self.result = Some(Err(FetchError::ClientUnavailable(reason)));
        }
    }

    /// Whether the download has ended.
    pub fn is_finished(&self) -> (r: bool)
        ensures
            r == !self@.running(),
    {
        self.result.is_some()
    }

    /// The result of the download, once it has ended.
    pub fn into_result(self) -> (r: Option<Result<String, FetchError>>)
        ensures
            outcome_text(r) == self@.result,
    {
        self.result
    }
}

/// Each failed request of a download under way brings the end one request
/// nearer, and the download ends with the failure after which none is left.
pub proof fn lemma_failure_counts_down(view: DownloadView, reason: Seq<char>)
    requires
        view.well_formed(),
        view.running(),
    ensures
        view.attempts_left() >= 1,
        view.after_failure(reason).well_formed(),
        view.after_failure(reason).attempts_left() == view.attempts_left() - 1,
        view.after_failure(reason).running() <==> view.attempts_left() > 1,
        !view.after_failure(reason).running() ==> view.after_failure(reason).result == Some(
            Err::<Seq<char>, FetchErrorView>(FetchErrorView::Exhausted(reason)),
        ),
        view.after_failure(reason).candidates == view.candidates,
        view.after_failure(reason).ceiling == view.ceiling,
{
    let n = view.candidates.len() as int;
    let tiers = tier_count(view.timeout, view.ceiling) as int;
    let later = tier_count(2 * view.timeout, view.ceiling) as int;
    assert(tiers == 1 + later);
    assert(n * (tiers - 1) >= 0) by (nonlinear_arith)
        requires
            n >= 0,
            tiers >= 1,
    ;
    if view.index + 1 < view.candidates.len() {
    } else if 2 * view.timeout <= view.ceiling {
        assert(n + n * (later - 1) == n * later) by (nonlinear_arith);
    } else {
        assert(later == 0);
        assert(n * 0 == 0);
    }
}

/// A run of failed requests that is shorter than [`attempts_left`] leaves the
/// download under way; a run of exactly that length ends it, with the reason
/// of the last failure.
///
/// [`attempts_left`]: DownloadView::attempts_left
pub proof fn lemma_failures_until_exhaustion(view: DownloadView, reasons: Seq<Seq<char>>)
    requires
        view.well_formed(),
        view.running(),
        reasons.len() <= view.attempts_left(),
    ensures
        view.after_failures(reasons).well_formed(),
        view.after_failures(reasons).candidates == view.candidates,
        view.after_failures(reasons).ceiling == view.ceiling,
        view.after_failures(reasons).attempts_left() == view.attempts_left() - reasons.len(),
        view.after_failures(reasons).running() <==> reasons.len() < view.attempts_left(),
        reasons.len() == view.attempts_left() ==> view.after_failures(reasons).result == Some(
            Err::<Seq<char>, FetchErrorView>(FetchErrorView::Exhausted(reasons.last())),
        ),
    decreases reasons.len(),
{
    if reasons.len() == 0 {
        lemma_failure_counts_down(view, Seq::empty());
    } else {
        lemma_failures_until_exhaustion(view, reasons.drop_last());
        lemma_failure_counts_down(view.after_failures(reasons.drop_last()), reasons.last());
    }
}

/// A download in which every request fails makes exactly
/// `tier_count(floor, ceiling)` passes over its candidates and then ends in
/// [`FetchErrorView::Exhausted`]: it is under way after any shorter run of
/// failures.
pub proof fn lemma_all_failures_take_every_tier(
    candidates: Seq<Seq<char>>,
    floor: nat,
    ceiling: nat,
    reasons: Seq<Seq<char>>,
)
    requires
        candidates.len() >= 1,
        1 <= floor <= ceiling,
        reasons.len() <= candidates.len() * tier_count(floor, ceiling),
    ensures
        DownloadView::start(candidates, floor, ceiling).after_failures(reasons).running()
            <==> reasons.len() < candidates.len() * tier_count(floor, ceiling),
        reasons.len() == candidates.len() * tier_count(floor, ceiling) ==> DownloadView::start(
            candidates,
            floor,
            ceiling,
        ).after_failures(reasons).result == Some(
            Err::<Seq<char>, FetchErrorView>(FetchErrorView::Exhausted(reasons.last())),
        ),
{
    let start = DownloadView::start(candidates, floor, ceiling);
    let n = candidates.len() as int;
    let tiers = tier_count(floor, ceiling) as int;
    assert(n + n * (tiers - 1) == n * tiers) by (nonlinear_arith);
    assert(start.attempts_left() == n * tiers);
    lemma_failures_until_exhaustion(start, reasons);
}

/// Where the ceiling is the first limit doubled `k` times, there are `k + 1`
/// passes.
pub proof fn lemma_tier_count_of_doubled_floor(floor: nat, k: nat)
    requires
        floor >= 1,
    ensures
        tier_count(floor, floor * pow2(k)) == k + 1,
    decreases k,
{
    if k == 0 {
        assert(floor * pow2(0) == floor) by (nonlinear_arith)
            requires
                pow2(0) == 1,
        ;
        assert(tier_count(2 * floor, floor) == 0);
    } else {
        let rest = pow2((k - 1) as nat);
        lemma_pow2_positive((k - 1) as nat);
        assert(floor * pow2(k) == (2 * floor) * rest) by (nonlinear_arith)
            requires
                pow2(k) == 2 * rest,
        ;
        assert(floor <= (2 * floor) * rest) by (nonlinear_arith)
            requires
                rest >= 1,
                floor >= 1,
        ;
        lemma_tier_count_of_doubled_floor(2 * floor, (k - 1) as nat);
    }
}

/// Every power of two is at least one.
pub proof fn lemma_pow2_positive(k: nat)
    ensures
        pow2(k) >= 1,
    decreases k,
{
    if k > 0 {
        lemma_pow2_positive((k - 1) as nat);
    }
}

/// With the standard limits of three and ten seconds there are two passes,
/// of three and of six seconds.
pub proof fn lemma_standard_policy_has_two_tiers()
    ensures
        tier_count(3, 10) == 2,
{
    assert(tier_count(12, 10) == 0);
    assert(tier_count(6, 10) == 1);
}

/// Failures that stay within the current pass move the position and leave
/// the limit alone; a body that arrives then ends the download with that
/// body.
pub proof fn lemma_success_within_pass(
    view: DownloadView,
    reasons: Seq<Seq<char>>,
    body: Seq<char>,
)
    requires
        view.running(),
        view.index + reasons.len() < view.candidates.len(),
    ensures
        view.after_failures(reasons) == (DownloadView {
            index: view.index + reasons.len(),
            ..view
        }),
        view.after_failures(reasons).after_success(body) == (DownloadView {
            index: view.index + reasons.len(),
            result: Some(Ok(body)),
            ..view
        }),
    decreases reasons.len(),
{
    if reasons.len() > 0 {
        lemma_success_within_pass(view, reasons.drop_last(), body);
    }
}

impl DeepView for Attempt {
    type V = AttemptView;

    open spec fn deep_view(&self) -> AttemptView {
        self@
    }
}

} // verus!
