use workdup::config::{
    default_cleanup, default_port, default_query, default_scan, default_temporal_metrics_port,
    listen_address, validate, validate_with_files, ConfigError, Defaults, Http, Interval,
    MainConfig, Namespace, ResolvedNamespace, Tls,
};

fn ns(name: &str, host: &str) -> Namespace {
    Namespace {
        name: name.to_string(),
        host: host.to_string(),
        api_key: None,
        tls: None,
        scan_interval: None,
        cleanup_interval: None,
        query: None,
    }
}

fn resolved(name: &str, host: &str, tls: Option<Tls>) -> ResolvedNamespace {
    ResolvedNamespace {
        name: name.to_string(),
        host: host.to_string(),
        api_key: None,
        tls,
        scan_interval: default_scan(),
        cleanup_interval: default_cleanup(),
        query: default_query(),
    }
}

#[test]
fn defaults_match_documentation() {
    assert_eq!(default_scan(), Interval { secs: 3600, nanos: 0 });
    assert_eq!(default_cleanup(), Interval { secs: 86_400, nanos: 0 });
    assert_eq!(default_query(), "ExecutionStatus = 'Running'");
    assert_eq!(default_port(), 8000);
    assert_eq!(default_temporal_metrics_port(), 9000);
    let d = Defaults::default();
    assert_eq!(d.scan_interval, Interval { secs: 3600, nanos: 0 });
    assert_eq!(d.cleanup_interval, Interval { secs: 86_400, nanos: 0 });
    assert_eq!(d.query, "ExecutionStatus = 'Running'");
    let h = Http::default();
    assert_eq!((h.port, h.temporal_metrics_port), (8000, 9000));
}

#[test]
fn listen_address_binds_every_interface() {
    assert_eq!(listen_address(8000), "0.0.0.0:8000");
    assert_eq!(listen_address(0), "0.0.0.0:0");
    assert_eq!(listen_address(65535), "0.0.0.0:65535");
}

#[test]
fn namespace_overrides_win_over_defaults() {
    let mut second = ns("namespace-2", "host.cloud:7233");
    second.scan_interval = Some(Interval { secs: 600, nanos: 0 });
    second.query = Some("WorkflowType = 'Order'".to_string());
    second.api_key = Some("key".to_string());
    second.tls = Some(Tls { cert_path: "c.pem".into(), key_path: "k.pem".into(), ca_path: None });
    let cfg = MainConfig {
        defaults: Defaults {
            scan_interval: Interval { secs: 3600, nanos: 0 },
            cleanup_interval: Interval { secs: 86_400, nanos: 5 },
            query: "ExecutionStatus = 'Running'".to_string(),
        },
        http: Http::default(),
        namespaces: vec![ns("namespace-1", "host.cloud:7233"), second],
    };
    let r = cfg.resolve_namespace_section();
    assert_eq!(r.len(), 2);
    assert_eq!(r[0].name, "namespace-1");
    assert_eq!(r[0].scan_interval, Interval { secs: 3600, nanos: 0 });
    assert_eq!(r[0].cleanup_interval, Interval { secs: 86_400, nanos: 5 });
    assert_eq!(r[0].query, "ExecutionStatus = 'Running'");
    assert!(r[0].tls.is_none() && r[0].api_key.is_none());
    assert_eq!(r[1].scan_interval, Interval { secs: 600, nanos: 0 });
    assert_eq!(r[1].cleanup_interval, Interval { secs: 86_400, nanos: 5 });
    assert_eq!(r[1].query, "WorkflowType = 'Order'");
    assert_eq!(r[1].api_key.as_deref(), Some("key"));
    assert_eq!(r[1].tls.as_ref().unwrap().key_path, "k.pem");
}

#[test]
fn no_namespaces_is_an_error() {
    let e = validate(&[]).unwrap_err();
    assert!(matches!(e, ConfigError::NoNamespaces));
    assert_eq!(e.message(), "no one namespace was defined");
}

#[test]
fn duplicate_names_are_an_error() {
    let e = validate(&[resolved("a", "h:1", None), resolved("b", "h:1", None), resolved("a", "h:2", None)])
        .unwrap_err();
    assert_eq!(e.message(), "namespace 'a' dublicate");
}

#[test]
fn empty_host_is_an_error() {
    let e = validate(&[resolved("a", "h:1", None), resolved("b", "", None)]).unwrap_err();
    assert!(matches!(&e, ConfigError::EmptyHost { name } if name == "b"));
    assert_eq!(e.message(), "namespace 'b': empty host");
}

#[test]
fn good_config_passes() {
    assert!(validate(&[resolved("a", "h:1", None), resolved("b", "h:2", None)]).is_ok());
}

#[test]
fn tls_paths_must_be_files() {
    let missing = "/nonexistent/workdup/cert.pem".to_string();
    let tls = Tls { cert_path: missing.clone(), key_path: "/nonexistent/key.pem".into(), ca_path: None };
    let e = validate(&[resolved("a", "h:1", None), resolved("b", "h:2", Some(tls))]).unwrap_err();
    assert!(matches!(&e, ConfigError::MissingFile { name, path } if name == "b" && *path == missing));
    assert_eq!(e.message(), "namespace 'b': file not defined: /nonexistent/workdup/cert.pem");
}

#[test]
fn checks_run_namespace_by_namespace() {
    let tls = Tls { cert_path: "c".into(), key_path: "k".into(), ca_path: Some("ca".into()) };
    let nss = [resolved("a", "h:1", Some(tls)), resolved("a", "", None)];
    let e = validate_with_files(&nss, &vec![vec![true, false, false], vec![]]).unwrap_err();
    assert_eq!(e.message(), "namespace 'a': file not defined: k");
    let e = validate_with_files(&nss, &vec![vec![true, true, true], vec![]]).unwrap_err();
    assert_eq!(e.message(), "namespace 'a' dublicate");
}
