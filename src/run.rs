//! The reward run: credentials extracted once, then one campaign per
//! identity profile, in order, stopping the whole run at the first failure.
use crate::campaign::{Campaign, CampaignError, CampaignView, Step};
use crate::cookies::{cookie_lines, cookie_line_text, is_credential_set, select_credentials, CookieRow, DedupPolicy, ExtractError};
use vstd::prelude::*;

verus! {

/// A simulated client: the user-agent it presents and how many requests it makes.
pub struct IdentityProfile {
    pub identity: String,
    pub budget: u64,
}

/// Why a reward run failed.
#[derive(PartialEq, Eq, Debug)]
pub enum RunError {
    /// The credentials could not be extracted.
    Extract(ExtractError),
    /// The client for profile `profile` (counted from 0) could not be built.
    ClientBuild { profile: u64, cause: String },
    /// A request of profile `profile` (counted from 0) failed.
    Request { profile: u64, error: CampaignError },
}

/// What the caller has to do next for a run.
#[derive(Clone, Copy, PartialEq, Eq, Structural, Debug)]
pub enum RunStep {
    /// Build a fresh client for the current profile, with its own cookie
    /// container seeded from `cookie_lines`, then call `client_built`.
    BuildClient,
    /// Wait one full pacing interval, then call `pause_elapsed`.
    Pause,
    /// Call `send` and issue the request with the current profile's client.
    Send,
    /// Report the outcome of the request in flight with `record_outcome`.
    Await,
    /// The run is over; `outcome` says how it ended.
    Finished,
}

/// The mathematical state of a run.
pub struct RunView {
    pub identities: Seq<Seq<char>>,
    pub budgets: Seq<nat>,
    pub cookies: Seq<Seq<char>>,
    /// The profile being worked on; all before it completed their budgets.
    pub current: nat,
    /// The current profile's client is built and its campaign under way.
    pub started: bool,
    pub campaign: CampaignView,
    pub failed: bool,
    /// The error that ended the run, if one did.
    pub failure: Option<RunError>,
}

/// A reward run over an ordered list of identity profiles.
pub struct RewardRun {
    profiles: Vec<IdentityProfile>,
    cookies: Vec<String>,
    current: usize,
    started: bool,
    campaign: Campaign,
    failure: Option<RunError>,
}

impl View for RewardRun {
    type V = RunView;

    closed spec fn view(&self) -> RunView {
        RunView {
            identities: self.profiles@.map_values(|p: IdentityProfile| p.identity@),
            budgets: self.profiles@.map_values(|p: IdentityProfile| p.budget as nat),
            cookies: self.cookies@.map_values(|c: String| c@),
            current: self.current as nat,
            started: self.started,
            campaign: self.campaign@,
            failed: self.failure is Some,
            failure: self.failure,
        }
    }
}

impl RunView {
    /// The invariant of a run.
    pub open spec fn wf(&self) -> bool {
        &&& self.budgets.len() == self.identities.len()
        &&& self.current <= self.budgets.len()
        &&& self.campaign.wf()
        &&& self.started ==> {
            &&& !self.failed
            &&& self.current < self.budgets.len()
            &&& self.campaign.budget == self.budgets[self.current as int]
            &&& self.campaign.step() != Step::Finished
        }
    }

    /// The step that the caller owes the run.
    pub open spec fn step(&self) -> RunStep {
        if self.failed || self.current == self.budgets.len() {
            RunStep::Finished
        } else if !self.started {
            RunStep::BuildClient
        } else {
            match self.campaign.step() {
                Step::Pause => RunStep::Pause,
                Step::Send => RunStep::Send,
                _ => RunStep::Await,
            }
        }
    }
}

/// The user-agent of the desktop profile: Edge on Windows.
pub open spec fn edge_identity() -> Seq<char> {
    "Mozilla/5.0 (Windows NT 10.0; Win64; x64) AppleWebKit/537.36 (KHTML, like Gecko) Chrome/112.0.0.0 Safari/537.36 Edg/112.0.1722.48"@
}

/// The user-agent of the mobile profile: a browser on Android.
pub open spec fn android_identity() -> Seq<char> {
    "Mozilla/5.0 (Linux; U; Android 4.0.3; ko-kr; LG-L160L Build/IML74K) AppleWebkit/534.30 (KHTML, like Gecko) Version/4.0 Mobile Safari/534.30"@
}

/// The two simulated clients of a daily run: a desktop browser making 40
/// requests, then a mobile one making 25.
pub fn default_profiles() -> (r: Vec<IdentityProfile>)
    ensures
        r@.len() == 2,
        r@[0].identity@ == edge_identity(),
        r@[0].budget == 40,
        r@[1].identity@ == android_identity(),
        r@[1].budget == 25,
{
    let mut r: Vec<IdentityProfile> = Vec::new();
    r.push(IdentityProfile {
        identity: String::from_str(
            "Mozilla/5.0 (Windows NT 10.0; Win64; x64) AppleWebKit/537.36 (KHTML, like Gecko) Chrome/112.0.0.0 Safari/537.36 Edg/112.0.1722.48",
        ),
        budget: 40,
    });
    r.push(IdentityProfile {
        identity: String::from_str(
            "Mozilla/5.0 (Linux; U; Android 4.0.3; ko-kr; LG-L160L Build/IML74K) AppleWebkit/534.30 (KHTML, like Gecko) Version/4.0 Mobile Safari/534.30",
        ),
        budget: 25,
    });
    r
}

/// The hosts whose cookies are replayed: `bing.com` and `www.bing.com`,
/// each also in its leading-dot form. Under that matching rule the daily
/// run keeps cookies of the hosts `bing.com`, `.bing.com`, `www.bing.com`
/// and `.www.bing.com`; browsers store the site's session cookies under
/// `.bing.com` and `www.bing.com`, and the other two forms are kept as
/// well rather than dropped.
pub fn default_targets() -> (r: Vec<String>)
    ensures
        r@.len() == 2,
        r@[0]@ == "bing.com"@,
        r@[1]@ == "www.bing.com"@,
{
    let mut r: Vec<String> = Vec::new();
    r.push(String::from_str("bing.com"));
    r.push(String::from_str("www.bing.com"));
    r
}

/// Prepares the daily run from the rows of the browser's cookie store: the
/// credentials in scope for the default targets, one per name with the
/// last row winning, and the default profiles in order. No cookie is
/// required, so extraction from rows already read does not fail.
pub fn run_requests(rows: &Vec<CookieRow>) -> (r: Result<RewardRun, RunError>)
    ensures
        r matches Ok(run) ==> {
            &&& run@.wf()
            &&& run@.current == 0
            &&& !run@.started
            &&& !run@.failed
            &&& run@.budgets == seq![40nat, 25nat]
            &&& run@.identities == seq![edge_identity(), android_identity()]
            &&& exists|targets: Seq<String>, creds: Seq<crate::cookies::CredentialRecord>|
                targets.len() == 2 && targets[0]@ == "bing.com"@ && targets[1]@ == "www.bing.com"@
                && #[trigger] is_credential_set(rows@, targets, DedupPolicy::KeepLast, creds)
                && run@.cookies == creds.map_values(|c: crate::cookies::CredentialRecord| cookie_line_text(c@))
        },
        r is Ok,
{
    let targets = default_targets();
    let profiles = default_profiles();
    let r = RewardRun::start(rows, &targets, DedupPolicy::KeepLast, &None, profiles);
    assert(r is Ok);
    match r {
        Ok(run) => {
            assert(run@.budgets =~= seq![40nat, 25nat]);
            assert(run@.identities =~= seq![edge_identity(), android_identity()]);
            Ok(run)
        },
        Err(e) => Err(e),
    }
}

impl RewardRun {
    /// Extracts the credentials from the store's rows once and prepares a
    /// run over `profiles`. Fails exactly when extraction fails.
    pub fn start(
        rows: &Vec<CookieRow>,
        targets: &Vec<String>,
        policy: DedupPolicy,
        required: &Option<String>,
        profiles: Vec<IdentityProfile>,
    ) -> (r: Result<RewardRun, RunError>)
        ensures
            r is Err <==> (required matches Some(n) && !crate::cookies::name_in_scope(rows@, targets@, n@)),
            r matches Err(e) ==> e == RunError::Extract(ExtractError::NotFound),
            r matches Ok(run) ==> {
                &&& run@.wf()
                &&& run@.current == 0
                &&& !run@.started
                &&& !run@.failed
                &&& run@.identities == profiles@.map_values(|p: IdentityProfile| p.identity@)
                &&& run@.budgets == profiles@.map_values(|p: IdentityProfile| p.budget as nat)
                &&& exists|creds: Seq<crate::cookies::CredentialRecord>|
                    #[trigger] is_credential_set(rows@, targets@, policy, creds)
                    && run@.cookies == creds.map_values(|c: crate::cookies::CredentialRecord| cookie_line_text(c@))
            },
    {
        match select_credentials(rows, targets, policy, required) {
            Err(e) => Err(RunError::Extract(e)),
            Ok(creds) => {
                let lines = cookie_lines(&creds);
                let run = RewardRun {
                    profiles,
                    cookies: lines,
                    current: 0,
                    started: false,
                    campaign: Campaign::new(0),
                    failure: None,
                };
                assert(run@.cookies =~= creds@.map_values(|c: crate::cookies::CredentialRecord| cookie_line_text(c@)));
                Ok(run)
            },
        }
    }

    /// What the caller has to do next.
    pub fn next_step(&self) -> (r: RunStep)
        requires
            self@.wf(),
        ensures
            r == self@.step(),
    {
        if self.failure.is_some() || self.current == self.profiles.len() {
            RunStep::Finished
        } else if !self.started {
            RunStep::BuildClient
        } else {
            match self.campaign.next_step() {
                Step::Pause => RunStep::Pause,
                Step::Send => RunStep::Send,
                _ => RunStep::Await,
            }
        }
    }

    /// The index of the profile being worked on.
    pub fn current_profile(&self) -> (r: usize)
        ensures
            r == self@.current,
    {
        self.current
    }

    /// The identity string of the profile being worked on.
    pub fn current_identity(&self) -> (r: &String)
        requires
            self@.wf(),
            self@.current < self@.budgets.len(),
        ensures
            r@ == self@.identities[self@.current as int],
    {
        &self.profiles[self.current].identity
    }

    /// The cookie lines that every client is seeded with.
    pub fn cookie_lines(&self) -> (r: &Vec<String>)
        ensures
            r@.map_values(|c: String| c@) == self@.cookies,
    {
        &self.cookies
    }

    /// Records whether the current profile's client could be built: on
    /// success its campaign starts (a profile with no budget is done at
    /// once), on failure the run ends. Does nothing at another step.
    pub fn client_built(&mut self, result: Result<(), String>)
        requires
            old(self)@.wf(),
        ensures
            final(self)@.wf(),
            final(self)@.identities == old(self)@.identities,
            final(self)@.budgets == old(self)@.budgets,
            final(self)@.cookies == old(self)@.cookies,
            old(self)@.step() != RunStep::BuildClient ==> final(self)@ == old(self)@,
            old(self)@.step() == RunStep::BuildClient && result is Err ==> final(self)@.failed
                && final(self)@.current == old(self)@.current && final(self)@.failure == Some(
                RunError::ClientBuild { profile: old(self)@.current as u64, cause: result->Err_0 },
            ),
            old(self)@.step() == RunStep::BuildClient && result is Ok ==> !final(self)@.failed && (
            if old(self)@.budgets[old(self)@.current as int] == 0 {
                final(self)@.current == old(self)@.current + 1 && !final(self)@.started
            } else {
                &&& final(self)@.current == old(self)@.current
                &&& final(self)@.started
                &&& final(self)@.campaign.urls.len() == 0
                &&& final(self)@.campaign.completed == 0
                &&& final(self)@.campaign.step() == Step::Pause
            }),
    {
        if self.failure.is_some() || self.current == self.profiles.len() || self.started {
            return;
        }
        match result {
            Err(cause) => {
                self.failure = Some(RunError::ClientBuild { profile: self.current as u64, cause });
            },
            Ok(()) => {
                let budget = self.profiles[self.current].budget;
                if budget == 0 {
                    self.current = self.current + 1;
                } else {
                    self.campaign = Campaign::new(budget);
                    self.started = true;
                }
            },
        }
    }

    /// Records that a full pacing interval has passed. Does nothing unless
    /// the run is waiting for one.
    pub fn pause_elapsed(&mut self)
        requires
            old(self)@.wf(),
        ensures
            final(self)@.wf(),
            old(self)@.step() == RunStep::Pause ==> final(self)@ == (RunView {
                campaign: CampaignView { paced: true, ..old(self)@.campaign },
                ..old(self)@
            }),
            old(self)@.step() != RunStep::Pause ==> final(self)@ == old(self)@,
    {
        if self.failure.is_none() && self.current != self.profiles.len() && self.started {
            self.campaign.pause_elapsed();
        }
    }

    /// Sends the current profile's next request, with `token` as its query,
    /// if the run is ready to send and that URL was not requested before in
    /// this campaign; otherwise changes nothing.
    pub fn send_with_token(&mut self, token: &String) -> (r: Option<String>)
        requires
            old(self)@.wf(),
            crate::campaign::is_token(token@),
        ensures
            final(self)@.wf(),
            r is Some <==> (old(self)@.step() == RunStep::Send && !old(self)@.campaign.urls.contains(
                crate::campaign::search_url_text(token@),
            )),
            r matches Some(u) ==> u@ == crate::campaign::search_url_text(token@) && final(self)@ == (RunView {
                campaign: CampaignView {
                    urls: old(self)@.campaign.urls.push(u@),
                    paced: false,
                    awaiting: true,
                    ..old(self)@.campaign
                },
                ..old(self)@
            }),
            r is None ==> final(self)@ == old(self)@,
    {
        if self.failure.is_none() && self.current != self.profiles.len() && self.started {
            self.campaign.send_with_token(token)
        } else {
            None
        }
    }

    /// Sends the current profile's next request to a fresh URL, if the run
    /// is ready to send; `None` otherwise, or when the drawn URL was
    /// requested before in this campaign (the caller then asks again). The
    /// first request of a campaign cannot repeat an earlier one, so it always
    /// goes out.
    pub fn send(&mut self) -> (r: Option<String>)
        requires
            old(self)@.wf(),
        ensures
            final(self)@.wf(),
            r is Some ==> old(self)@.step() == RunStep::Send,
            old(self)@.step() == RunStep::Send && old(self)@.campaign.urls.len() == 0 ==> r is Some,
            r matches Some(u) ==> !old(self)@.campaign.urls.contains(u@)
                && crate::campaign::is_search_url(u@) && final(self)@ == (RunView {
                campaign: CampaignView {
                    urls: old(self)@.campaign.urls.push(u@),
                    paced: false,
                    awaiting: true,
                    ..old(self)@.campaign
                },
                ..old(self)@
            }),
            r is None ==> final(self)@ == old(self)@,
    {
        let token = crate::campaign::random_token(crate::campaign::TOKEN_LEN);
        self.send_with_token(&token)
    }

    /// Records how the request in flight ended. When it completes the
    /// current profile's budget the run moves to the next profile; when it
    /// failed the whole run ends. Does nothing unless a request is in flight.
    pub fn record_outcome(&mut self, outcome: Result<(), String>)
        requires
            old(self)@.wf(),
        ensures
            final(self)@.wf(),
            final(self)@.identities == old(self)@.identities,
            final(self)@.budgets == old(self)@.budgets,
            final(self)@.cookies == old(self)@.cookies,
            old(self)@.step() != RunStep::Await ==> final(self)@ == old(self)@,
            old(self)@.step() == RunStep::Await && outcome is Err ==> final(self)@.failed
                && !final(self)@.started && final(self)@.current == old(self)@.current
                && final(self)@.campaign.failed_at == Some(old(self)@.campaign.urls.len())
                && final(self)@.campaign.completed == old(self)@.campaign.completed
                && final(self)@.failure == Some(
                RunError::Request {
                    profile: old(self)@.current as u64,
                    error: CampaignError::RequestFailed {
                        index: old(self)@.campaign.urls.len() as u64,
                        cause: outcome->Err_0,
                    },
                },
            ),
            old(self)@.step() == RunStep::Await && outcome is Ok ==> !final(self)@.failed && (
            if old(self)@.campaign.completed + 1 == old(self)@.campaign.budget {
                final(self)@.current == old(self)@.current + 1 && !final(self)@.started
            } else {
                &&& final(self)@.current == old(self)@.current
                &&& final(self)@.started
                &&& final(self)@.campaign == (CampaignView {
                    completed: old(self)@.campaign.completed + 1,
                    awaiting: false,
                    ..old(self)@.campaign
                })
            }),
    {
        if self.failure.is_some() || self.current == self.profiles.len() || !self.started {
            return;
        }
        self.campaign.record_outcome(outcome);
        match self.campaign.outcome() {
            Some(Ok(_)) => {
                self.current = self.current + 1;
                self.started = false;
            },
            Some(Err(error)) => {
                self.failure = Some(RunError::Request { profile: self.current as u64, error });
                self.started = false;
            },
            None => {},
        }
    }

    /// How the run ended, once it has: `Ok` when every profile completed its
    /// budget, else the first error. `None` while it runs.
    pub fn outcome(&self) -> (r: Option<Result<(), RunError>>)
        requires
            self@.wf(),
        ensures
            r is Some <==> self@.step() == RunStep::Finished,
            r matches Some(Ok(())) ==> !self@.failed && self@.current == self@.budgets.len(),
            r matches Some(Err(e)) ==> self@.failure == Some(e),
    {
        match &self.failure {
            Some(e) => Some(Err(copy_error(e))),
            None => {
                if self.current == self.profiles.len() {
                    Some(Ok(()))
                } else {
                    None
                }
            },
        }
    }
}

/// A run that failed is over: no later step issues a request, in that
/// profile or a later one.
pub proof fn lemma_failed_run_is_finished(r: RunView)
    requires
        r.failed,
    ensures
        r.step() == RunStep::Finished,
{
}

/// A copy of `e`.
pub fn copy_error(e: &RunError) -> (r: RunError)
    ensures
        r == *e,
{
    match e {
        RunError::Extract(x) => RunError::Extract(*x),
        RunError::ClientBuild { profile, cause } => RunError::ClientBuild { profile: *profile, cause: cause.clone() },
        RunError::Request { profile, error } => RunError::Request {
            profile: *profile,
            error: match error {
                CampaignError::RequestFailed { index, cause } => CampaignError::RequestFailed {
                    index: *index,
                    cause: cause.clone(),
                },
            },
        },
    }
}

} // verus!
