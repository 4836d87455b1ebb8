use umami_alerts::config::{Config, SmtpConfig, WebsiteConfig};
use umami_alerts::dispatch::Dispatch;
use umami_alerts::error::AppError;
use umami_alerts::pipeline::{pipeline_advance, pipeline_outcome, PipelineOutcome, PipelineStage};
use umami_alerts::run::{aggregate_outcomes, Scheduler};

fn success(site: &str) -> PipelineOutcome {
    PipelineOutcome::Success { site: site.to_string() }
}

fn failure(site: &str) -> PipelineOutcome {
    PipelineOutcome::Failure {
        site: site.to_string(),
        error: AppError::Api("boom".to_string()),
    }
}

/// Drives a run of five sites under a ceiling of two, with the given sites
/// failing; `eager` decides whether launches or completions come first
/// whenever both are possible.
fn simulate_run(failing: &[usize], eager: bool) -> (umami_alerts::run::RunResult, usize) {
    let names = ["site1", "site2", "site3", "site4", "site5"];
    let mut scheduler = Scheduler::new(2, names.len());
    let mut in_flight: Vec<usize> = Vec::new();
    let mut max_active = 0;
    while !scheduler.is_done() {
        let active = scheduler.launched - scheduler.outcomes.len();
        assert!(active <= 2, "concurrency ceiling exceeded");
        if active > max_active {
            max_active = active;
        }
        if scheduler.can_launch() && (eager || in_flight.is_empty()) {
            let site = scheduler.launch();
            in_flight.push(site);
        } else {
            let site = in_flight.remove(0);
            let outcome = if failing.contains(&site) {
                failure(names[site])
            } else {
                success(names[site])
            };
            scheduler.complete(outcome);
        }
    }
    (scheduler.run_result(), max_active)
}

#[test]
fn test_orchestrator_partial_failure() {
    // Five enabled sites, the second and fourth fail, ceiling two.
    for eager in [false, true] {
        let (result, max_active) = simulate_run(&[1, 3], eager);
        assert_eq!(result.succeeded, 3);
        assert_eq!(result.failed, 2);
        assert_eq!(result.failed_sites, vec!["site2", "site4"]);
        assert!(result.run_failed());
        assert!(max_active <= 2);
    }
}

#[test]
fn test_orchestrator_all_succeed() {
    let (result, _) = simulate_run(&[], true);
    assert_eq!(result.succeeded, 5);
    assert_eq!(result.failed, 0);
    assert!(result.failed_sites.is_empty());
    assert!(!result.run_failed());
}

#[test]
fn test_aggregate_outcomes() {
    let outcomes = vec![success("a"), failure("b"), success("c"), failure("d")];
    let r = aggregate_outcomes(&outcomes);
    assert_eq!(r.succeeded, 2);
    assert_eq!(r.failed, 2);
    assert_eq!(r.failed_sites, vec!["b", "d"]);
    assert!(r.run_failed());
}

#[test]
fn test_aggregate_empty() {
    let r = aggregate_outcomes(&vec![]);
    assert_eq!(r.succeeded, 0);
    assert_eq!(r.failed, 0);
    assert!(!r.run_failed());
}

#[test]
fn test_dry_run_skips_mailer() {
    // In a dry run no recipient is ever due, and the outcome is success.
    let d = Dispatch::new(true, 3);
    assert_eq!(d.next_recipient(), None);
    assert!(d.outcome().is_ok());
}

#[test]
fn test_dispatch_sends_in_order() {
    let mut d = Dispatch::new(false, 3);
    assert_eq!(d.next_recipient(), Some(0));
    d.record_attempt(true);
    assert_eq!(d.next_recipient(), Some(1));
    d.record_attempt(true);
    assert_eq!(d.next_recipient(), Some(2));
    d.record_attempt(true);
    assert_eq!(d.next_recipient(), None);
    assert!(d.outcome().is_ok());
}

#[test]
fn test_send_failure_aborts_rest() {
    let mut d = Dispatch::new(false, 3);
    assert_eq!(d.next_recipient(), Some(0));
    d.record_attempt(true);
    assert_eq!(d.next_recipient(), Some(1));
    d.record_attempt(false);
    // The remaining recipient is never attempted and the site reports failure.
    assert_eq!(d.next_recipient(), None);
    match d.outcome() {
        Err(AppError::Smtp(_)) => (),
        _ => panic!("expected an SMTP error"),
    }
    // Another site's delivery is unaffected.
    let other = Dispatch::new(false, 1);
    assert_eq!(other.next_recipient(), Some(0));
}

#[test]
fn test_pipeline_stage_order() {
    let mut stage = PipelineStage::Authenticate;
    let order = [
        PipelineStage::ComputeWindow,
        PipelineStage::AssembleData,
        PipelineStage::Render,
        PipelineStage::Deliver,
        PipelineStage::Succeeded,
    ];
    for expected in order {
        stage = pipeline_advance(&stage, true);
        assert_eq!(stage, expected);
    }
    let outcome = pipeline_outcome("site1", &stage, None);
    assert!(matches!(outcome, PipelineOutcome::Success { .. }));
}

#[test]
fn test_pipeline_failure_short_circuits() {
    let stage = pipeline_advance(&PipelineStage::AssembleData, false);
    assert_eq!(stage, PipelineStage::Failed);
    let outcome = pipeline_outcome("site1", &stage, Some(AppError::api("fetch failed")));
    match outcome {
        PipelineOutcome::Failure { site, error } => {
            assert_eq!(site, "site1");
            assert!(matches!(error, AppError::Api(_)));
        },
        _ => panic!("expected a failure outcome"),
    }
}

#[test]
fn test_disabled_site_absent_from_outcomes() {
    let site = |disabled: bool| WebsiteConfig {
        id: "id".to_string(),
        name: "name".to_string(),
        base_url: "https://analytics.example.com".to_string(),
        username: "u".to_string(),
        password: "p".to_string(),
        recipients: vec!["a@example.com".to_string()],
        timezone: "UTC".to_string(),
        disabled,
    };
    let config = Config {
        smtp: SmtpConfig {
            host: "smtp.example.com".to_string(),
            port: 587,
            username: "u".to_string(),
            password: "p".to_string(),
            from: "r@example.com".to_string(),
            tls: true,
            timeout_seconds: 30,
            skip_verify: false,
        },
        websites: vec![
            ("alpha".to_string(), site(false)),
            ("beta".to_string(), site(true)),
            ("gamma".to_string(), site(false)),
        ],
        max_concurrent_jobs: 1,
    };
    let enabled = config.enabled_websites();
    assert_eq!(enabled, vec![0, 2]);

    // One pipeline per enabled site; the disabled one is never scheduled.
    let mut scheduler = Scheduler::new(config.max_concurrent_jobs, enabled.len());
    while !scheduler.is_done() {
        if scheduler.can_launch() {
            let slot = scheduler.launch();
            let name = &config.websites[enabled[slot]].0;
            scheduler.complete(success(name));
        }
    }
    let sites: Vec<String> = scheduler
        .outcomes
        .iter()
        .map(|o| match o {
            PipelineOutcome::Success { site } => site.clone(),
            PipelineOutcome::Failure { site, .. } => site.clone(),
        })
        .collect();
    assert_eq!(sites, vec!["alpha", "gamma"]);
    let result = scheduler.run_result();
    assert_eq!(result.succeeded, 2);
    assert_eq!(result.failed, 0);
    assert!(!result.run_failed());
}
