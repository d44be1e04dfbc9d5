//! One identity's campaign: a paced run of distinct search requests, driven
//! step by step by the caller, which performs each pause and request.
use crate::cookies::str_eq;
use rand::distributions::{Alphanumeric, DistString};
use vstd::prelude::*;

verus! {

/// Characters in a query token.
pub const TOKEN_LEN: usize = 16;

/// An ASCII letter or digit.
pub open spec fn is_alphanumeric(c: char) -> bool {
    ('A' <= c && c <= 'Z') || ('a' <= c && c <= 'z') || ('0' <= c && c <= '9')
}

/// A query token: `TOKEN_LEN` letters and digits.
pub open spec fn is_token(t: Seq<char>) -> bool {
    t.len() == TOKEN_LEN && forall|i: int| 0 <= i < t.len() ==> #[trigger] is_alphanumeric(t[i])
}

/// The search URL that carries `token` as its query.
pub open spec fn search_url_text(token: Seq<char>) -> Seq<char> {
    "https://bing.com/search?q="@ + token
}

/// Relies on rand's `Alphanumeric::sample_string` over the thread-local
/// generator: `len` characters, each an ASCII letter or digit.
#[verifier::external_body]
pub(crate) fn random_token(len: usize) -> (r: String)
    ensures
        r@.len() == len,
        forall|i: int| 0 <= i < r@.len() ==> #[trigger] is_alphanumeric(r@[i]),
{
    Alphanumeric.sample_string(&mut rand::thread_rng(), len)
}

/// The search URL for `token`.
pub fn search_url(token: &String) -> (r: String)
    ensures
        r@ == search_url_text(token@),
{
    String::from_str("https://bing.com/search?q=").concat(token.as_str())
}

/// `u` is the search URL of some query token.
pub open spec fn is_search_url(u: Seq<char>) -> bool {
    exists|t: Seq<char>| is_token(t) && u == #[trigger] search_url_text(t)
}

/// No two entries of `s` are equal.
pub open spec fn all_distinct(s: Seq<Seq<char>>) -> bool {
    forall|i: int, j: int| 0 <= i < s.len() && 0 <= j < s.len() && i != j ==> s[i] != s[j]
}

/// A campaign that ended without a failure issued exactly its budget of
/// requests, to pairwise distinct search URLs.
pub proof fn lemma_completed_campaign(c: CampaignView)
    requires
        c.wf(),
        c.step() == Step::Finished,
        c.failed_at is None,
    ensures
        c.urls.len() == c.budget,
        c.completed == c.budget,
        all_distinct(c.urls),
        forall|i: int| 0 <= i < c.urls.len() ==> #[trigger] is_search_url(c.urls[i]),
{
}

/// A campaign lets a request out only after a full pacing interval has
/// passed since the previous one (or since it started).
pub proof fn lemma_send_follows_pause(c: CampaignView)
    requires
        c.wf(),
        c.step() == Step::Send,
    ensures
        c.paced,
        !c.awaiting,
        c.failed_at is None,
        c.completed < c.budget,
{
}

/// When request `i` of a campaign failed, `i - 1` requests completed, `i`
/// were issued, and the campaign is over.
pub proof fn lemma_failed_campaign(c: CampaignView, i: nat)
    requires
        c.wf(),
        c.failed_at == Some(i),
    ensures
        i >= 1,
        c.completed == i - 1,
        c.urls.len() == i,
        c.step() == Step::Finished,
{
}

/// What the caller has to do next for a campaign.
#[derive(Clone, Copy, PartialEq, Eq, Structural, Debug)]
pub enum Step {
    /// Wait one full pacing interval, then call `pause_elapsed`.
    Pause,
    /// Call `send` and issue the request to the URL it gives.
    Send,
    /// Report the outcome of the request in flight with `record_outcome`.
    Await,
    /// The campaign is over; `outcome` says how it ended.
    Finished,
}

/// Why a campaign stopped before its budget was spent.
#[derive(Clone, PartialEq, Eq, Debug)]
pub enum CampaignError {
    /// Request `index` (counted from 1) failed, for the reason `cause`.
    RequestFailed { index: u64, cause: String },
}

/// The mathematical state of a campaign.
pub struct CampaignView {
    pub budget: nat,
    /// The URLs requested so far, in order.
    pub urls: Seq<Seq<char>>,
    /// Requests that succeeded.
    pub completed: nat,
    /// A full pacing interval has passed since the last request went out.
    pub paced: bool,
    /// A request is out and its outcome not yet recorded.
    pub awaiting: bool,
    /// The index of the request that failed, if one did.
    pub failed_at: Option<nat>,
    /// The failure that ended the campaign, if one did.
    pub failure: Option<CampaignError>,
}

/// A paced run of `budget` distinct requests for one identity.
pub struct Campaign {
    budget: u64,
    urls: Vec<String>,
    completed: u64,
    paced: bool,
    awaiting: bool,
    failure: Option<CampaignError>,
}

impl CampaignError {
    pub open spec fn index_of(&self) -> nat {
        match self {
            CampaignError::RequestFailed { index, .. } => *index as nat,
        }
    }
}

impl View for Campaign {
    type V = CampaignView;

    closed spec fn view(&self) -> CampaignView {
        CampaignView {
            budget: self.budget as nat,
            urls: self.urls@.map_values(|u: String| u@),
            completed: self.completed as nat,
            paced: self.paced,
            awaiting: self.awaiting,
            failed_at: match self.failure {
                Some(e) => Some(e.index_of()),
                None => None,
            },
            failure: self.failure,
        }
    }
}

impl CampaignView {
    /// The invariant of a campaign.
    pub open spec fn wf(&self) -> bool {
        &&& self.urls.len() <= self.budget
        &&& self.completed + (if self.awaiting || self.failed_at is Some { 1int } else { 0 })
            == self.urls.len()
        &&& !(self.awaiting && self.failed_at is Some)
        &&& (self.failed_at matches Some(i) ==> i == self.urls.len())
        &&& all_distinct(self.urls)
        &&& forall|i: int| 0 <= i < self.urls.len() ==> #[trigger] is_search_url(self.urls[i])
    }

    /// The step that the caller owes the campaign.
    pub open spec fn step(&self) -> Step {
        if self.failed_at is Some {
            Step::Finished
        } else if self.awaiting {
            Step::Await
        } else if self.completed == self.budget {
            Step::Finished
        } else if !self.paced {
            Step::Pause
        } else {
            Step::Send
        }
    }
}

impl Campaign {
    /// A campaign that will issue `budget` requests.
    pub fn new(budget: u64) -> (r: Campaign)
        ensures
            r@.wf(),
            r@.budget == budget,
            r@.urls.len() == 0,
            r@.completed == 0,
            !r@.paced,
            !r@.awaiting,
            r@.failed_at is None,
    {
        let r = Campaign {
            budget,
            urls: Vec::new(),
            completed: 0,
            paced: false,
            awaiting: false,
            failure: None,
        };
        assert(r@.urls =~= Seq::<Seq<char>>::empty());
        r
    }

    /// Requests that succeeded so far.
    pub fn completed(&self) -> (r: u64)
        ensures
            r == self@.completed,
    {
        self.completed
    }

    /// The number of requests the campaign was given.
    pub fn budget(&self) -> (r: u64)
        ensures
            r == self@.budget,
    {
        self.budget
    }

    /// What the caller has to do next.
    pub fn next_step(&self) -> (r: Step)
        ensures
            r == self@.step(),
    {
        if self.failure.is_some() {
            Step::Finished
        } else if self.awaiting {
            Step::Await
        } else if self.completed == self.budget {
            Step::Finished
        } else if !self.paced {
            Step::Pause
        } else {
            Step::Send
        }
    }
}

impl Campaign {
    /// Whether `url` was requested already.
    fn already_requested(&self, url: &String) -> (r: bool)
        ensures
            r == self@.urls.contains(url@),
    {
        let mut i: usize = 0;
        while i < self.urls.len()
            invariant
                i <= self.urls@.len(),
                forall|m: int| 0 <= m < i ==> #[trigger] self.urls@[m]@ != url@,
            decreases self.urls.len() - i,
        {
            if str_eq(&self.urls[i], url) {
                assert(self@.urls[i as int] == url@);
                return true;
            }
            i = i + 1;
        }
        assert(!self@.urls.contains(url@)) by {
            if self@.urls.contains(url@) {
                let m = choose|m: int| 0 <= m < self@.urls.len() && self@.urls[m] == url@;
                assert(self.urls@[m]@ == url@);
            }
        }
        false
    }

    /// Records that a full pacing interval has passed. Does nothing unless
    /// the campaign is waiting for one.
    pub fn pause_elapsed(&mut self)
        requires
            old(self)@.wf(),
        ensures
            final(self)@.wf(),
            old(self)@.step() == Step::Pause ==> final(self)@ == (CampaignView { paced: true, ..old(self)@ }),
            old(self)@.step() != Step::Pause ==> final(self)@ == old(self)@,
    {
        if self.failure.is_none() && !self.awaiting && self.completed != self.budget && !self.paced {
            self.paced = true;
            assert(self@.urls =~= old(self)@.urls);
        }
    }

    /// Sends the request whose query is `token`, if the campaign is ready to
    /// send and that URL was not requested before; otherwise changes nothing.
    pub fn send_with_token(&mut self, token: &String) -> (r: Option<String>)
        requires
            old(self)@.wf(),
            is_token(token@),
        ensures
            final(self)@.wf(),
            r is Some <==> (old(self)@.step() == Step::Send && !old(self)@.urls.contains(
                search_url_text(token@),
            )),
            r matches Some(u) ==> u@ == search_url_text(token@) && final(self)@ == (CampaignView {
                urls: old(self)@.urls.push(u@),
                paced: false,
                awaiting: true,
                ..old(self)@
            }),
            r is None ==> final(self)@ == old(self)@,
    {
        if !(self.failure.is_none() && !self.awaiting && self.completed != self.budget && self.paced) {
            return None;
        }
        let url = search_url(token);
        if self.already_requested(&url) {
            return None;
        }
        let ghost old_urls = self@.urls;
        self.urls.push(url.clone());
        self.paced = false;
        self.awaiting = true;
        assert(self@.urls =~= old_urls.push(url@));
        assert forall|i: int| 0 <= i < self@.urls.len() implies #[trigger] is_search_url(self@.urls[i]) by {
            if i == old_urls.len() {
                assert(is_token(token@) && self@.urls[i] == search_url_text(token@));
            } else {
                assert(self@.urls[i] == old_urls[i]);
            }
        }
        Some(url)
    }

    /// Sends the next request to a URL with a fresh random token, if the
    /// campaign is ready to send. `None` also when the drawn URL was
    /// requested before: the caller then asks again. The first request of a
    /// campaign cannot repeat an earlier one, so it always goes out.
    pub fn send(&mut self) -> (r: Option<String>)
        requires
            old(self)@.wf(),
        ensures
            final(self)@.wf(),
            r is Some ==> old(self)@.step() == Step::Send,
            old(self)@.step() == Step::Send && old(self)@.urls.len() == 0 ==> r is Some,
            r matches Some(u) ==> !old(self)@.urls.contains(u@) && is_search_url(u@) && final(self)@ == (CampaignView {
                urls: old(self)@.urls.push(u@),
                paced: false,
                awaiting: true,
                ..old(self)@
            }),
            r is None ==> final(self)@ == old(self)@,
    {
        let token = random_token(TOKEN_LEN);
        self.send_with_token(&token)
    }

    /// Records how the request in flight ended: `Ok` counts it as completed,
    /// `Err` ends the campaign with that cause. Does nothing unless a
    /// request is in flight.
    pub fn record_outcome(&mut self, outcome: Result<(), String>)
        requires
            old(self)@.wf(),
        ensures
            final(self)@.wf(),
            old(self)@.step() == Step::Await && outcome is Ok ==> final(self)@ == (CampaignView {
                completed: old(self)@.completed + 1,
                awaiting: false,
                ..old(self)@
            }),
            old(self)@.step() == Step::Await && outcome is Err ==> final(self)@ == (CampaignView {
                awaiting: false,
                failed_at: Some(old(self)@.urls.len()),
                failure: Some(
                    CampaignError::RequestFailed {
                        index: old(self)@.urls.len() as u64,
                        cause: outcome->Err_0,
                    },
                ),
                ..old(self)@
            }),
            old(self)@.step() != Step::Await ==> final(self)@ == old(self)@,
    {
        if self.failure.is_some() || !self.awaiting {
            return;
        }
        self.awaiting = false;
        match outcome {
            Ok(()) => {
                self.completed = self.completed + 1;
            },
            Err(cause) => {
                self.failure = Some(CampaignError::RequestFailed { index: self.completed + 1, cause });
            },
        }
        assert(self@.urls =~= old(self)@.urls);
    }

    /// How the campaign ended, once it has: `Ok` with the number of requests
    /// when the whole budget succeeded, else the failure of the request that
    /// stopped it. `None` while it runs.
    pub fn outcome(&self) -> (r: Option<Result<u64, CampaignError>>)
        requires
            self@.wf(),
        ensures
            r is Some <==> self@.step() == Step::Finished,
            r matches Some(Ok(n)) ==> n == self@.budget && self@.completed == self@.budget
                && self@.urls.len() == self@.budget && self@.failed_at is None,
            r matches Some(Err(e)) ==> self@.failure == Some(e) && self@.failed_at == Some(e.index_of()) && e.index_of()
                >= 1 && self@.completed == e.index_of() - 1 && self@.urls.len() == e.index_of(),
    {
        match &self.failure {
            Some(CampaignError::RequestFailed { index, cause }) => Some(
                Err(CampaignError::RequestFailed { index: *index, cause: cause.clone() }),
            ),
            None => {
                if !self.awaiting && self.completed == self.budget {
                    Some(Ok(self.completed))
                } else {
                    None
                }
            },
        }
    }
}

} // verus!
