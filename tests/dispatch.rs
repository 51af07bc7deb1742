use korrect::config::KorrectShimConfig;
use korrect::dispatch::{exit_code, Action, Dispatcher, Event};
use korrect::error::ShimError;
use korrect::query::reported_server_version;

fn config() -> KorrectShimConfig {
    KorrectShimConfig::new(
        "/home/u",
        "/home/u/.config",
        "/home/u/.cache",
        Some("http://127.0.0.1:8080"),
        "linux",
        "x86_64",
        false,
    )
}

fn step(d: &mut Dispatcher, e: Event) -> Action {
    assert!(d.expects(&e));
    d.step(e)
}

fn ensure(action: Action) -> String {
    match action {
        Action::EnsureBinary { version } => version,
        _ => panic!("expected a binary to be made present"),
    }
}

/// Runs a dispatch up to the cache read and returns the cache entry's path.
fn up_to_cache(d: &mut Dispatcher, config_content: Option<Vec<u8>>) -> String {
    match step(d, Event::Begin) {
        Action::FetchStable { url } => {
            assert_eq!(url, "http://127.0.0.1:8080/release/stable.txt")
        }
        _ => panic!("expected the stable pointer to be fetched"),
    }
    let known = ensure(step(d, Event::Stable { body: Ok("v1.31.3\n".to_string()) }));
    assert_eq!(known, "v1.31.3");
    match step(d, Event::BinaryReady { result: Ok(()) }) {
        Action::ReadConfig { path } => assert_eq!(path, d.kubeconfig),
        _ => panic!("expected the configuration to be read"),
    }
    match step(d, Event::Config { content: config_content }) {
        Action::ReadCache { path } => path,
        _ => panic!("expected the cache entry to be read"),
    }
}

#[test]
fn end_to_end_query_and_exec() {
    let cfg = config();
    let expected_cache = cfg.get_version_cache_file(Some(b"cluster-a".as_slice()));
    let args = vec!["get".to_string(), "pods".to_string(), "-A".to_string()];
    let mut d = Dispatcher::new(cfg, Some("/tmp/kc"), args.clone());
    let cache_file = up_to_cache(&mut d, Some(b"cluster-a".to_vec()));
    assert_eq!(cache_file, expected_cache);
    match step(&mut d, Event::Cache { entry: None }) {
        Action::QueryCluster { binary, args } => {
            assert_eq!(binary, "/home/u/.korrect/bin/kubectl-v1.31.3");
            assert_eq!(args, vec!["version", "-o", "json"]);
        }
        _ => panic!("expected the cluster to be queried"),
    }
    let report = br#"{"clientVersion":{"gitVersion":"v1.31.3"},"serverVersion":{"gitVersion":"v1.30.5+build.99"}}"#;
    let reported = reported_server_version(report);
    assert_eq!(reported.as_deref(), Some("v1.30.5+build.99"));
    match step(&mut d, Event::Query { reported: Ok(reported) }) {
        Action::WriteCache { path, version } => {
            assert_eq!(path, expected_cache);
            assert_eq!(version, "v1.30.5");
        }
        _ => panic!("expected the cache entry to be written"),
    }
    let target = ensure(step(&mut d, Event::CacheWritten { result: Ok(()) }));
    assert_eq!(target, "v1.30.5");
    assert_eq!(d.config.binary_path(&target), "/home/u/.korrect/bin/kubectl-v1.30.5");
    match step(&mut d, Event::BinaryReady { result: Ok(()) }) {
        Action::Exec { binary, args: passed } => {
            assert_eq!(binary, "/home/u/.korrect/bin/kubectl-v1.30.5");
            assert_eq!(passed, args);
        }
        _ => panic!("expected the binary to be run"),
    }
}

#[test]
fn test_get_server_version_with_cache() {
    let mut d = Dispatcher::new(config(), Some("test-config"), Vec::new());
    assert_eq!(d.kubeconfig, "test-config");
    up_to_cache(&mut d, None);
    let version = ensure(step(&mut d, Event::Cache { entry: Some("v1.23.0".to_string()) }));
    assert_eq!(version, "v1.23.0");
}

#[test]
fn cache_round_trip_skips_query() {
    // First dispatch stores the queried version.
    let mut first = Dispatcher::new(config(), None, Vec::new());
    let cache_file = up_to_cache(&mut first, Some(b"cluster-b".to_vec()));
    step(&mut first, Event::Cache { entry: None });
    let stored = match step(
        &mut first,
        Event::Query { reported: Ok(Some("v1.28.15-eks-1234".to_string())) },
    ) {
        Action::WriteCache { path, version } => {
            assert_eq!(path, cache_file);
            version
        }
        _ => panic!("expected the cache entry to be written"),
    };
    // Second dispatch over the same content finds it at the same entry.
    let mut second = Dispatcher::new(config(), None, Vec::new());
    let again = up_to_cache(&mut second, Some(b"cluster-b".to_vec()));
    assert_eq!(again, cache_file);
    let version = ensure(step(&mut second, Event::Cache { entry: Some(stored.clone()) }));
    assert_eq!(version, stored);
    assert_eq!(version, "v1.28.15");
}

#[test]
fn missing_server_version_falls_back() {
    let mut d = Dispatcher::new(config(), None, Vec::new());
    up_to_cache(&mut d, None);
    step(&mut d, Event::Cache { entry: None });
    let report = br#"{"clientVersion":{"gitVersion":"v1.31.3"}}"#;
    let reported = reported_server_version(report);
    assert_eq!(reported, None);
    let version = ensure(step(&mut d, Event::Query { reported: Ok(reported) }));
    assert_eq!(version, "v1.31.3");
}

#[test]
fn unparseable_report_falls_back() {
    assert_eq!(reported_server_version(b"error: connection refused"), None);
    assert_eq!(reported_server_version(br#"{"serverVersion":{"gitVersion":7}}"#), None);
    assert_eq!(reported_server_version(br#"{"serverVersion":"v1.2.3"}"#), None);
}

#[test]
fn malformed_server_version_fails() {
    let mut d = Dispatcher::new(config(), None, Vec::new());
    up_to_cache(&mut d, None);
    step(&mut d, Event::Cache { entry: None });
    match step(&mut d, Event::Query { reported: Ok(Some("unknown".to_string())) }) {
        Action::Fail { error } => assert_eq!(error, ShimError::MalformedVersion),
        _ => panic!("expected a failure"),
    }
}

#[test]
fn malformed_stable_pointer_fails() {
    let mut d = Dispatcher::new(config(), None, Vec::new());
    step(&mut d, Event::Begin);
    match step(&mut d, Event::Stable { body: Ok("<html>not found</html>".to_string()) }) {
        Action::Fail { error } => assert_eq!(error, ShimError::MalformedVersion),
        _ => panic!("expected a failure"),
    }
    assert!(!d.expects(&Event::Begin));
}

#[test]
fn errors_end_the_dispatch() {
    let mut d = Dispatcher::new(config(), None, Vec::new());
    step(&mut d, Event::Begin);
    match step(&mut d, Event::Stable { body: Err(ShimError::NetworkUnavailable) }) {
        Action::Fail { error } => assert_eq!(error, ShimError::NetworkUnavailable),
        _ => panic!("expected a failure"),
    }

    let mut d = Dispatcher::new(config(), None, Vec::new());
    step(&mut d, Event::Begin);
    step(&mut d, Event::Stable { body: Ok("v1.31.3".to_string()) });
    match step(&mut d, Event::BinaryReady { result: Err(ShimError::UpstreamError { status: 404 }) }) {
        Action::Fail { error } => assert_eq!(error, ShimError::UpstreamError { status: 404 }),
        _ => panic!("expected a failure"),
    }

    let mut d = Dispatcher::new(config(), None, Vec::new());
    up_to_cache(&mut d, None);
    step(&mut d, Event::Cache { entry: None });
    match step(&mut d, Event::Query { reported: Err(ShimError::SubprocessError) }) {
        Action::Fail { error } => assert_eq!(error, ShimError::SubprocessError),
        _ => panic!("expected a failure"),
    }

    let mut d = Dispatcher::new(config(), None, Vec::new());
    up_to_cache(&mut d, None);
    step(&mut d, Event::Cache { entry: None });
    step(&mut d, Event::Query { reported: Ok(Some("v1.2.3".to_string())) });
    match step(&mut d, Event::CacheWritten { result: Err(ShimError::FilesystemError) }) {
        Action::Fail { error } => assert_eq!(error, ShimError::FilesystemError),
        _ => panic!("expected a failure"),
    }
}

#[test]
fn out_of_order_event_is_not_expected() {
    let d = Dispatcher::new(config(), None, Vec::new());
    assert!(d.expects(&Event::Begin));
    assert!(!d.expects(&Event::Cache { entry: None }));
}

#[test]
fn exit_code_mirrors_child() {
    assert_eq!(exit_code(Some(0)), 0);
    assert_eq!(exit_code(Some(3)), 3);
    assert_eq!(exit_code(None), 1);
}
