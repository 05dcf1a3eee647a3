use xynginc::apply::{Action, ApplyEngine, ApplyError, Event, Phase};
use xynginc::models::{BatchError, Config, DomainConfig};
use xynginc::ssl::TlsStage;
use xynginc::template::render_server_block;

fn domain(name: &str, port: u16, ssl: bool, email: Option<&str>) -> DomainConfig {
    DomainConfig {
        domain: name.to_string(),
        port,
        ssl,
        email: email.map(|e| e.to_string()),
        host: "localhost".to_string(),
        max_body_size: "20M".to_string(),
    }
}

fn done(e: ApplyEngine) -> (ApplyEngine, Action) {
    e.step(Event::Done)
}

#[test]
fn end_to_end_plain_domain_with_reload() {
    let config = Config { domains: vec![domain("api.example.com", 8080, false, None)], auto_reload: true };
    let (e, a) = ApplyEngine::start(config, vec![false], true, false).unwrap();
    assert!(matches!(a, Action::CreateSnapshot));
    let (e, a) = done(e);
    assert!(matches!(a, Action::DetectBroken));
    let (e, a) = e.step(Event::Broken { domains: vec![] });
    assert!(matches!(a, Action::InstallBaseAssets));
    let (e, a) = done(e);
    assert!(matches!(a, Action::WriteBlock { index: 0, tls: false }));
    let block = render_server_block(&e.config.domains[0], false);
    assert!(block.contains("proxy_pass http://127.0.0.1:8080;"));
    assert!(block.contains("server_name api.example.com;"));
    let (e, a) = done(e);
    assert!(matches!(a, Action::Validate));
    let (e, a) = done(e);
    assert!(matches!(a, Action::Reload));
    let (e, a) = done(e);
    assert!(matches!(a, Action::Finish(Ok(()))));
    let (_, a) = done(e);
    assert!(matches!(a, Action::Idle));
}

#[test]
fn ssl_without_email_is_rejected_before_any_action() {
    let config = Config {
        domains: vec![domain("a.example.com", 3000, false, None), domain("b.example.com", 3001, true, None)],
        auto_reload: false,
    };
    let r = ApplyEngine::start(config, vec![false, false], true, false);
    assert!(matches!(r, Err(ApplyError::Batch(BatchError::MissingEmail { index: 1 }))));
}

#[test]
fn invalid_configuration_rolls_back_to_snapshot() {
    let config = Config { domains: vec![domain("x.example.com", 5000, false, None)], auto_reload: true };
    let (e, _) = ApplyEngine::start(config, vec![false], true, false).unwrap();
    let (e, _) = done(e);
    let (e, _) = e.step(Event::Broken { domains: vec![] });
    let (e, _) = done(e);
    let (e, a) = done(e);
    assert!(matches!(a, Action::Validate));
    let (e, a) = e.step(Event::Failed { cause: "bad".to_string() });
    assert!(matches!(a, Action::RestoreLatest));
    let (_, a) = done(e);
    match a {
        Action::Finish(Err(ApplyError::Invalid { diagnostic, rolled_back })) => {
            assert_eq!(diagnostic, "bad");
            assert!(rolled_back);
        }
        other => panic!("unexpected {:?}", other),
    }
}

#[test]
fn invalid_configuration_without_backup_is_not_rolled_back() {
    let config = Config { domains: vec![], auto_reload: false };
    let (e, a) = ApplyEngine::start(config, vec![], false, false).unwrap();
    assert!(matches!(a, Action::DetectBroken));
    let (e, _) = e.step(Event::Broken { domains: vec![] });
    let (e, a) = done(e);
    assert!(matches!(a, Action::Validate));
    let (_, a) = e.step(Event::Failed { cause: "bad".to_string() });
    assert!(matches!(a, Action::Finish(Err(ApplyError::Invalid { rolled_back: false, .. }))));
}

#[test]
fn failed_restore_is_reported() {
    let config = Config { domains: vec![], auto_reload: false };
    let (e, _) = ApplyEngine::start(config, vec![], true, false).unwrap();
    let (e, _) = done(e);
    let (e, _) = done(e);
    let (e, _) = done(e);
    let (e, a) = e.step(Event::Failed { cause: "bad".to_string() });
    assert!(matches!(a, Action::RestoreLatest));
    let (_, a) = e.step(Event::Failed { cause: "disk".to_string() });
    assert!(matches!(a, Action::Finish(Err(ApplyError::Rollback { .. }))));
}

#[test]
fn force_commits_invalid_configuration() {
    let config = Config { domains: vec![], auto_reload: false };
    let (e, _) = ApplyEngine::start(config, vec![], true, true).unwrap();
    let (e, _) = done(e);
    let (e, _) = done(e);
    let (e, a) = done(e);
    assert!(matches!(a, Action::Validate));
    let (_, a) = e.step(Event::Failed { cause: "bad".to_string() });
    assert!(matches!(a, Action::Finish(Ok(()))));
}

#[test]
fn broken_sites_are_purged_in_order_ignoring_failures() {
    let config = Config { domains: vec![], auto_reload: false };
    let (e, _) = ApplyEngine::start(config, vec![], false, false).unwrap();
    let (e, a) = e.step(Event::Broken { domains: vec!["a".to_string(), "b".to_string()] });
    assert!(matches!(a, Action::RemoveConfig { ref domain } if domain == "a"));
    let (e, a) = e.step(Event::Failed { cause: "gone".to_string() });
    assert!(matches!(a, Action::RemoveConfig { ref domain } if domain == "b"));
    let (_, a) = done(e);
    assert!(matches!(a, Action::InstallBaseAssets));
}

#[test]
fn snapshot_failure_aborts_before_changes() {
    let config = Config { domains: vec![domain("a.example.com", 1, false, None)], auto_reload: false };
    let (e, _) = ApplyEngine::start(config, vec![false], true, false).unwrap();
    let (_, a) = e.step(Event::Failed { cause: "no space".to_string() });
    assert!(matches!(a, Action::Finish(Err(ApplyError::Snapshot { .. }))));
}

#[test]
fn tls_domain_bootstrap_success() {
    let config = Config {
        domains: vec![domain("secure.example.com", 4000, true, Some("ops@example.com"))],
        auto_reload: false,
    };
    let (e, _) = ApplyEngine::start(config, vec![false], false, false).unwrap();
    let (e, _) = e.step(Event::Broken { domains: vec![] });
    let (e, a) = done(e);
    assert!(matches!(a, Action::WriteBlock { index: 0, tls: false }));
    let (e, a) = done(e);
    assert!(matches!(a, Action::Reload));
    let (e, a) = done(e);
    assert!(matches!(a, Action::IssueCertificate { index: 0 }));
    let (e, a) = done(e);
    assert!(matches!(a, Action::WriteBlock { index: 0, tls: true }));
    assert!(matches!(e.phase, Phase::Site { index: 0, stage: TlsStage::TlsWrite }));
    let (_, a) = done(e);
    assert!(matches!(a, Action::Validate));
}

#[test]
fn tls_domain_certificate_failure_falls_back_to_http() {
    let config = Config {
        domains: vec![
            domain("secure.example.com", 4000, true, Some("ops@example.com")),
            domain("next.example.com", 4001, false, None),
        ],
        auto_reload: false,
    };
    let (e, _) = ApplyEngine::start(config, vec![false, false], false, false).unwrap();
    let (e, _) = e.step(Event::Broken { domains: vec![] });
    let (e, _) = done(e);
    let (e, _) = done(e);
    let (e, a) = done(e);
    assert!(matches!(a, Action::IssueCertificate { index: 0 }));
    let (e, a) = e.step(Event::Failed { cause: "rate limited".to_string() });
    assert!(matches!(a, Action::WriteBlock { index: 0, tls: false }));
    let (_, a) = done(e);
    assert!(matches!(a, Action::WriteBlock { index: 1, tls: false }));
}

#[test]
fn ip_literal_never_gets_tls_block() {
    let config = Config {
        domains: vec![domain("192.168.1.10", 4000, true, Some("ops@example.com"))],
        auto_reload: false,
    };
    let (e, _) = ApplyEngine::start(config, vec![true], false, false).unwrap();
    let (e, _) = e.step(Event::Broken { domains: vec![] });
    let (e, a) = done(e);
    assert!(matches!(a, Action::WriteBlock { index: 0, tls: false }));
    let block = render_server_block(&e.config.domains[0], false);
    assert!(!block.contains("443"));
    assert!(!block.contains("ssl_certificate"));
    let (_, a) = done(e);
    assert!(matches!(a, Action::Validate));
}

#[test]
fn write_failure_aborts_the_batch() {
    let config = Config { domains: vec![domain("a.example.com", 1, false, None)], auto_reload: false };
    let (e, _) = ApplyEngine::start(config, vec![false], false, false).unwrap();
    let (e, _) = e.step(Event::Broken { domains: vec![] });
    let (e, _) = done(e);
    let (_, a) = e.step(Event::Failed { cause: "read-only".to_string() });
    assert!(matches!(a, Action::Finish(Err(ApplyError::Site { index: 0, .. }))));
}

#[test]
fn detection_asset_and_reload_failures_are_reported() {
    let config = Config { domains: vec![], auto_reload: true };
    let (e, _) = ApplyEngine::start(config, vec![], false, false).unwrap();
    let (_, a) = e.step(Event::Failed { cause: "nginx missing".to_string() });
    assert!(matches!(a, Action::Finish(Err(ApplyError::Detection { .. }))));

    let config = Config { domains: vec![], auto_reload: true };
    let (e, _) = ApplyEngine::start(config, vec![], false, false).unwrap();
    let (e, _) = e.step(Event::Broken { domains: vec![] });
    let (_, a) = e.step(Event::Failed { cause: "read-only".to_string() });
    assert!(matches!(a, Action::Finish(Err(ApplyError::Assets { .. }))));

    let config = Config { domains: vec![], auto_reload: true };
    let (e, _) = ApplyEngine::start(config, vec![], false, false).unwrap();
    let (e, _) = e.step(Event::Broken { domains: vec![] });
    let (e, _) = done(e);
    let (e, a) = done(e);
    assert!(matches!(a, Action::Reload));
    let (_, a) = e.step(Event::Failed { cause: "inactive".to_string() });
    assert!(matches!(a, Action::Finish(Err(ApplyError::Reload { ref cause })) if cause == "inactive"));
}

#[test]
fn no_auto_reload_finishes_after_validation() {
    let config = Config { domains: vec![], auto_reload: false };
    let (e, _) = ApplyEngine::start(config, vec![], false, false).unwrap();
    let (e, _) = e.step(Event::Broken { domains: vec![] });
    let (e, _) = done(e);
    let (_, a) = done(e);
    assert!(matches!(a, Action::Finish(Ok(()))));
}
