use workdup::cleanup::{cleanup_action, CleanupAction, CleanupTally, DescribeOutcome, WorkflowExecutionStatus};
use workdup::cli::{default_config_path, validation_report, Cli, Cmd};
use workdup::config::{default_cleanup, default_query, default_scan, ResolvedNamespace, Tls};
use workdup::http::{health_reply, readiness_reply, AppError, Stats, UniqueWorkflow};
use workdup::scanner::{needs_fetch, ScanTally, WorkflowOutcome};
use workdup::temporal::{parse_target, tls_plan, uses_tls, HistoryPager, TlsPlan};

fn namespace(api_key: Option<&str>, tls: Option<Tls>) -> ResolvedNamespace {
    ResolvedNamespace {
        name: "n".to_string(),
        host: "localhost:7233".to_string(),
        api_key: api_key.map(|k| k.to_string()),
        tls,
        scan_interval: default_scan(),
        cleanup_interval: default_cleanup(),
        query: default_query(),
    }
}

#[test]
fn scan_fetches_only_changed_histories() {
    assert!(!needs_fetch(Some(12), 12));
    assert!(needs_fetch(Some(12), 13));
    assert!(needs_fetch(None, 12));
}

#[test]
fn scan_tally_counts_outcomes() {
    let mut t = ScanTally::new();
    t.record(WorkflowOutcome::Skipped);
    t.record(WorkflowOutcome::Updated);
    t.record(WorkflowOutcome::Dropped);
    t.record(WorkflowOutcome::Updated);
    assert_eq!(t, ScanTally { listed: 4, processed: 2, updated: 2, skipped: 1 });
}

#[test]
fn cleanup_deletes_finished_and_vanished_workflows() {
    assert_eq!(cleanup_action(DescribeOutcome::Status(WorkflowExecutionStatus::Running)), CleanupAction::Keep);
    for s in [
        WorkflowExecutionStatus::Completed,
        WorkflowExecutionStatus::Failed,
        WorkflowExecutionStatus::Canceled,
        WorkflowExecutionStatus::Terminated,
        WorkflowExecutionStatus::ContinuedAsNew,
        WorkflowExecutionStatus::TimedOut,
        WorkflowExecutionStatus::Paused,
        WorkflowExecutionStatus::Unspecified,
    ] {
        assert_eq!(cleanup_action(DescribeOutcome::Status(s)), CleanupAction::Delete);
    }
    assert_eq!(cleanup_action(DescribeOutcome::NotFound), CleanupAction::Delete);
    assert_eq!(cleanup_action(DescribeOutcome::Unavailable), CleanupAction::RetryLater);
    assert_eq!(cleanup_action(DescribeOutcome::DeadlineExceeded), CleanupAction::RetryLater);
    assert_eq!(cleanup_action(DescribeOutcome::OtherError), CleanupAction::Report);
    let mut tally = CleanupTally::new();
    tally.record_deleted(1);
    tally.record_deleted(0);
    tally.record_deleted(2);
    assert_eq!(tally.deleted, 3);
}

#[test]
fn tls_follows_settings_or_api_key() {
    let tls = Tls { cert_path: "c".into(), key_path: "k".into(), ca_path: None };
    assert!(!uses_tls(&namespace(None, None)));
    assert!(uses_tls(&namespace(Some("key"), None)));
    assert!(uses_tls(&namespace(None, Some(tls.clone()))));
    assert!(matches!(tls_plan(&namespace(None, None)), TlsPlan::Plain));
    assert!(matches!(tls_plan(&namespace(Some("key"), None)), TlsPlan::ServerOnly));
    match tls_plan(&namespace(Some("key"), Some(tls))) {
        TlsPlan::ClientCertificate(t) => assert_eq!(t.cert_path, "c"),
        _ => panic!("expected client certificate"),
    }
}

#[test]
fn target_gets_a_scheme_when_it_has_no_host() {
    assert_eq!(parse_target("localhost:7233", false).unwrap().into_url().as_str(), "http://localhost:7233/");
    assert_eq!(
        parse_target("tenant.acme.tmprl.cloud:7233", true).unwrap().into_url().as_str(),
        "https://tenant.acme.tmprl.cloud:7233/"
    );
    assert_eq!(
        parse_target("http://temporal.internal:7233", true).unwrap().into_url().as_str(),
        "http://temporal.internal:7233/"
    );
    let e = parse_target("bad host:99999", false).unwrap_err();
    assert_eq!(e.message(), "invalid host 'bad host:99999'");
}

#[test]
fn pager_stops_on_empty_token() {
    let mut p = HistoryPager::new();
    assert_eq!((p.page_num, p.finished, p.next_page_token.len()), (1, false, 0));
    p.record_page(vec![1, 2]);
    assert_eq!((p.page_num, p.finished), (2, false));
    assert_eq!(p.next_page_token, vec![1, 2]);
    p.record_page(vec![]);
    assert_eq!((p.page_num, p.finished), (2, true));
}

#[test]
fn http_replies() {
    let h = health_reply();
    assert_eq!((h.status, h.body.as_str()), (200, "ok"));
    let r = readiness_reply(Ok(()));
    assert_eq!((r.status, r.body.as_str()), (200, ""));
    let r = readiness_reply(Err("db locked".to_string()));
    assert_eq!((r.status, r.body.as_str()), (503, "not ready: db locked"));
    let e = AppError::from_message("no such table".to_string()).into_response();
    assert_eq!((e.status, e.body.as_str()), (500, "error: no such table"));
    let s = Stats { workflows_count: 3, unique_workflows_count: 2 };
    assert_eq!(s.workflows_count - s.unique_workflows_count, 1);
    let u = UniqueWorkflow { workflow_id: "w".into(), run_id: "r".into(), workflow_type: "T".into() };
    assert_eq!(u.clone().workflow_type, "T");
}

#[test]
fn cli_defaults_and_report() {
    assert_eq!(default_config_path(), "workdup.toml");
    assert_eq!(validation_report(2), "ok: 2 namespace(s)");
    let cli = Cli { config: default_config_path(), log_level: None, cmd: Cmd::Validate };
    assert_eq!(cli.cmd, Cmd::Validate);
    assert_ne!(cli.cmd, Cmd::Run);
}
