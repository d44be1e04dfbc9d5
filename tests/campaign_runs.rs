use bing_reward::campaign::{search_url, Campaign, CampaignError, Step, TOKEN_LEN};
use bing_reward::cookies::{CookieRow, DedupPolicy, ExtractError};
use bing_reward::run::{default_profiles, default_targets, run_requests, IdentityProfile, RewardRun, RunError, RunStep};
use std::collections::HashSet;

const PREFIX: &str = "https://bing.com/search?q=";

/// Drives a campaign; `fail_at` is the 1-based request that fails.
/// Returns the step trace and the URLs requested.
fn drive_campaign(c: &mut Campaign, fail_at: Option<u64>) -> (Vec<Step>, Vec<String>) {
    let mut steps = Vec::new();
    let mut urls = Vec::new();
    loop {
        let s = c.next_step();
        steps.push(s);
        match s {
            Step::Pause => c.pause_elapsed(),
            Step::Send => {
                if let Some(u) = c.send() {
                    urls.push(u);
                }
            }
            Step::Await => {
                let n = urls.len() as u64;
                if Some(n) == fail_at {
                    c.record_outcome(Err("connection reset".to_string()));
                } else {
                    c.record_outcome(Ok(()));
                }
            }
            Step::Finished => break,
        }
        assert!(steps.len() < 1000);
    }
    (steps, urls)
}

#[test]
fn campaign_issues_budget_of_distinct_urls() {
    let mut c = Campaign::new(5);
    let (steps, urls) = drive_campaign(&mut c, None);
    assert_eq!(urls.len(), 5);
    let distinct: HashSet<&String> = urls.iter().collect();
    assert_eq!(distinct.len(), 5);
    for u in &urls {
        assert!(u.starts_with(PREFIX));
        let token = &u[PREFIX.len()..];
        assert_eq!(token.len(), TOKEN_LEN);
        assert!(token.chars().all(|ch| ch.is_ascii_alphanumeric()));
    }
    assert_eq!(c.outcome(), Some(Ok(5)));
    assert_eq!(c.completed(), 5);
    // every send comes right after a pause
    for (i, s) in steps.iter().enumerate() {
        if *s == Step::Send {
            assert_eq!(steps[i - 1], Step::Pause);
        }
    }
}

#[test]
fn campaign_step_order() {
    let mut c = Campaign::new(2);
    let (steps, _) = drive_campaign(&mut c, None);
    assert_eq!(
        steps,
        vec![Step::Pause, Step::Send, Step::Await, Step::Pause, Step::Send, Step::Await, Step::Finished]
    );
}

#[test]
fn campaign_zero_budget_is_finished() {
    let mut c = Campaign::new(0);
    assert_eq!(c.next_step(), Step::Finished);
    assert_eq!(c.outcome(), Some(Ok(0)));
    assert_eq!(c.send(), None);
}

#[test]
fn campaign_failure_reports_index_and_completed() {
    let mut c = Campaign::new(4);
    let (_, urls) = drive_campaign(&mut c, Some(3));
    assert_eq!(urls.len(), 3);
    assert_eq!(c.completed(), 2);
    assert_eq!(
        c.outcome(),
        Some(Err(CampaignError::RequestFailed { index: 3, cause: "connection reset".to_string() }))
    );
    assert_eq!(c.next_step(), Step::Finished);
    c.pause_elapsed();
    assert_eq!(c.send(), None);
    assert_eq!(c.completed(), 2);
}

#[test]
fn campaign_first_request_fails() {
    let mut c = Campaign::new(3);
    let (_, urls) = drive_campaign(&mut c, Some(1));
    assert_eq!(urls.len(), 1);
    assert_eq!(c.completed(), 0);
    assert!(matches!(c.outcome(), Some(Err(CampaignError::RequestFailed { index: 1, .. }))));
}

#[test]
fn campaign_refuses_repeated_url() {
    let mut c = Campaign::new(3);
    let token = "AAAAbbbbCCCC1234".to_string();
    c.pause_elapsed();
    assert_eq!(c.send_with_token(&token), Some(format!("{PREFIX}{token}")));
    c.record_outcome(Ok(()));
    c.pause_elapsed();
    assert_eq!(c.send_with_token(&token), None);
    assert_eq!(c.next_step(), Step::Send);
    assert!(c.send_with_token(&"ZZZZbbbbCCCC1234".to_string()).is_some());
}

#[test]
fn campaign_send_needs_pause() {
    let mut c = Campaign::new(1);
    assert_eq!(c.next_step(), Step::Pause);
    assert_eq!(c.send(), None);
    assert_eq!(c.outcome(), None);
}

#[test]
fn search_url_appends_token() {
    assert_eq!(search_url(&"abc".to_string()), "https://bing.com/search?q=abc");
}

fn rows() -> Vec<CookieRow> {
    vec![CookieRow {
        name: "_U".to_string(),
        value: "v".to_string(),
        host: ".bing.com".to_string(),
        path: "/".to_string(),
        http_only: true,
        expiry: None,
        origin_attributes: String::new(),
    }]
}

fn profile(identity: &str, budget: u64) -> IdentityProfile {
    IdentityProfile { identity: identity.to_string(), budget }
}

/// Drives a run with every client built; `fail` is (profile, 1-based request).
/// Returns (profile identity, url) for each request issued.
fn drive_run(run: &mut RewardRun, fail: Option<(usize, usize)>) -> Vec<(String, String)> {
    let mut issued: Vec<(String, String)> = Vec::new();
    let mut per_profile = 0usize;
    let mut guard = 0;
    loop {
        guard += 1;
        assert!(guard < 10_000);
        match run.next_step() {
            RunStep::BuildClient => {
                per_profile = 0;
                run.client_built(Ok(()));
            }
            RunStep::Pause => run.pause_elapsed(),
            RunStep::Send => {
                let who = run.current_identity().clone();
                if let Some(u) = run.send() {
                    per_profile += 1;
                    issued.push((who, u));
                }
            }
            RunStep::Await => {
                if fail == Some((run.current_profile(), per_profile)) {
                    run.record_outcome(Err("HTTP 503".to_string()));
                } else {
                    run.record_outcome(Ok(()));
                }
            }
            RunStep::Finished => break,
        }
    }
    issued
}

fn targets() -> Vec<String> {
    vec!["bing.com".to_string(), "www.bing.com".to_string()]
}

#[test]
fn two_profiles_run_in_order() {
    let profiles = vec![profile("agentX", 3), profile("agentY", 2)];
    let mut run = RewardRun::start(&rows(), &targets(), DedupPolicy::KeepLast, &None, profiles).unwrap();
    assert_eq!(run.cookie_lines(), &vec!["_U=v; Domain=.bing.com; Path=/; HttpOnly;".to_string()]);
    let issued = drive_run(&mut run, None);
    let who: Vec<&str> = issued.iter().map(|(w, _)| w.as_str()).collect();
    assert_eq!(who, vec!["agentX", "agentX", "agentX", "agentY", "agentY"]);
    assert_eq!(issued.len(), 5);
    assert_eq!(run.outcome(), Some(Ok(())));
    assert_eq!(run.current_profile(), 2);
}

#[test]
fn failure_stops_later_profiles() {
    let profiles = vec![profile("agentX", 3), profile("agentY", 2)];
    let mut run = RewardRun::start(&rows(), &targets(), DedupPolicy::KeepLast, &None, profiles).unwrap();
    let issued = drive_run(&mut run, Some((0, 2)));
    assert_eq!(issued.len(), 2);
    assert!(issued.iter().all(|(w, _)| w == "agentX"));
    match run.outcome() {
        Some(Err(RunError::Request { profile: 0, error: CampaignError::RequestFailed { index, cause } })) => {
            assert_eq!(index, 2);
            assert_eq!(cause, "HTTP 503");
        }
        other => panic!("unexpected outcome {other:?}"),
    }
    assert_eq!(run.next_step(), RunStep::Finished);
    assert_eq!(run.send(), None);
}

#[test]
fn failure_in_second_profile() {
    let profiles = vec![profile("agentX", 3), profile("agentY", 2)];
    let mut run = RewardRun::start(&rows(), &targets(), DedupPolicy::KeepLast, &None, profiles).unwrap();
    let issued = drive_run(&mut run, Some((1, 1)));
    assert_eq!(issued.len(), 4);
    assert!(matches!(
        run.outcome(),
        Some(Err(RunError::Request { profile: 1, error: CampaignError::RequestFailed { index: 1, .. } }))
    ));
}

#[test]
fn client_build_failure_ends_run() {
    let profiles = vec![profile("agentX", 3), profile("agentY", 2)];
    let mut run = RewardRun::start(&rows(), &targets(), DedupPolicy::KeepLast, &None, profiles).unwrap();
    assert_eq!(run.next_step(), RunStep::BuildClient);
    run.client_built(Err("bad user agent".to_string()));
    assert_eq!(run.next_step(), RunStep::Finished);
    assert_eq!(
        run.outcome(),
        Some(Err(RunError::ClientBuild { profile: 0, cause: "bad user agent".to_string() }))
    );
}

#[test]
fn zero_budget_profile_is_skipped() {
    let profiles = vec![profile("agentX", 0), profile("agentY", 1)];
    let mut run = RewardRun::start(&rows(), &targets(), DedupPolicy::KeepLast, &None, profiles).unwrap();
    let issued = drive_run(&mut run, None);
    assert_eq!(issued.len(), 1);
    assert_eq!(issued[0].0, "agentY");
    assert_eq!(run.outcome(), Some(Ok(())));
}

#[test]
fn empty_profile_list_succeeds_at_once() {
    let mut run = RewardRun::start(&rows(), &targets(), DedupPolicy::KeepLast, &None, Vec::new()).unwrap();
    assert_eq!(run.next_step(), RunStep::Finished);
    assert_eq!(run.outcome(), Some(Ok(())));
    assert_eq!(run.send(), None);
}

#[test]
fn extraction_failure_fails_the_run() {
    let r = RewardRun::start(&rows(), &targets(), DedupPolicy::KeepLast, &Some("MUID".to_string()), vec![profile("a", 1)]);
    assert!(matches!(r, Err(RunError::Extract(ExtractError::NotFound))));
}

#[test]
fn default_profiles_budgets() {
    let p = default_profiles();
    assert_eq!(p.len(), 2);
    assert_eq!(p[0].budget, 40);
    assert_eq!(p[1].budget, 25);
    assert_eq!(p[0].identity, "Mozilla/5.0 (Windows NT 10.0; Win64; x64) AppleWebKit/537.36 (KHTML, like Gecko) Chrome/112.0.0.0 Safari/537.36 Edg/112.0.1722.48");
    assert_eq!(p[1].identity, "Mozilla/5.0 (Linux; U; Android 4.0.3; ko-kr; LG-L160L Build/IML74K) AppleWebkit/534.30 (KHTML, like Gecko) Version/4.0 Mobile Safari/534.30");
}

#[test]
fn daily_run_uses_default_profiles_and_targets() {
    assert_eq!(default_targets(), vec!["bing.com".to_string(), "www.bing.com".to_string()]);
    let mut r = rows();
    r.push(CookieRow {
        name: "_U".to_string(),
        value: "newer".to_string(),
        host: "www.bing.com".to_string(),
        path: "/".to_string(),
        http_only: false,
        expiry: None,
        origin_attributes: String::new(),
    });
    let run = run_requests(&r).unwrap();
    assert_eq!(run.cookie_lines(), &vec!["_U=newer; Domain=www.bing.com; Path=/; ;".to_string()]);
    assert_eq!(run.next_step(), RunStep::BuildClient);
    assert!(run.current_identity().contains("Edg/112"));
}

#[test]
fn two_profiles_with_chosen_tokens() {
    let profiles = vec![profile("agentX", 3), profile("agentY", 2)];
    let mut run = RewardRun::start(&rows(), &targets(), DedupPolicy::KeepLast, &None, profiles).unwrap();
    let tokens = ["AAAAAAAAAAAAAAA1", "AAAAAAAAAAAAAAA2", "AAAAAAAAAAAAAAA3"];
    let mut sent: Vec<(String, String)> = Vec::new();
    let mut next = 0usize;
    loop {
        match run.next_step() {
            RunStep::BuildClient => {
                next = 0;
                run.client_built(Ok(()));
            }
            RunStep::Pause => run.pause_elapsed(),
            RunStep::Send => {
                let who = run.current_identity().clone();
                let u = run.send_with_token(&tokens[next].to_string()).unwrap();
                next += 1;
                sent.push((who, u));
            }
            RunStep::Await => run.record_outcome(Ok(())),
            RunStep::Finished => break,
        }
    }
    assert_eq!(sent.len(), 5);
    assert_eq!(sent[0], ("agentX".to_string(), format!("{PREFIX}AAAAAAAAAAAAAAA1")));
    assert_eq!(sent[3], ("agentY".to_string(), format!("{PREFIX}AAAAAAAAAAAAAAA1")));
    assert_eq!(sent[4].0, "agentY");
    assert_eq!(run.outcome(), Some(Ok(())));
}

#[test]
fn run_refuses_repeated_token_within_campaign() {
    let mut run = RewardRun::start(&rows(), &targets(), DedupPolicy::KeepLast, &None, vec![profile("a", 2)]).unwrap();
    let t = "BBBBBBBBBBBBBBBB".to_string();
    assert_eq!(run.send_with_token(&t), None);
    run.client_built(Ok(()));
    run.pause_elapsed();
    assert!(run.send_with_token(&t).is_some());
    run.record_outcome(Ok(()));
    run.pause_elapsed();
    assert_eq!(run.send_with_token(&t), None);
    assert_eq!(run.next_step(), RunStep::Send);
}
