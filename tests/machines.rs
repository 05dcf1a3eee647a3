use xynginc::ssl::{
    begin_certificate, cert_step, reports_plugin_trouble, tls_step, CertEvent, CertOutcome, CertStage,
    CertStep, ProvisionError, SiteStep, TlsStage,
};
use xynginc::validator::{
    begin_check, check_step, reports_missing_module, CheckEvent, CheckStage, CheckStep, TestOutcome,
    ValidationError,
};

const MODULE_ERR: &str = "nginx: [emerg] dlopen() \"/usr/share/nginx/modules/ngx_http_headers_more_filter_module.so\" failed";

#[test]
fn missing_module_gets_one_remediation_and_one_retest() {
    let (s, a) = begin_check();
    assert!(matches!(a, CheckStep::RunTest));
    let (s, a) = check_step(s, CheckEvent::Tested(TestOutcome::Failed { diagnostic: MODULE_ERR.to_string() }));
    assert!(matches!(a, CheckStep::Remediate));
    let (s, a) = check_step(s, CheckEvent::Remediated(Ok(())));
    assert!(matches!(a, CheckStep::RunTest));
    let (s, a) = check_step(s, CheckEvent::Tested(TestOutcome::Failed { diagnostic: MODULE_ERR.to_string() }));
    assert!(matches!(a, CheckStep::Finish(Err(ValidationError::StillInvalid { .. }))));
    assert!(matches!(s, CheckStage::Done));
    let (_, a) = check_step(s, CheckEvent::Tested(TestOutcome::Passed));
    assert!(matches!(a, CheckStep::Idle));
}

#[test]
fn remediation_then_passing_retest() {
    let (s, _) = begin_check();
    let (s, _) = check_step(s, CheckEvent::Tested(TestOutcome::Failed { diagnostic: MODULE_ERR.to_string() }));
    let (s, _) = check_step(s, CheckEvent::Remediated(Ok(())));
    let (_, a) = check_step(s, CheckEvent::Tested(TestOutcome::Passed));
    assert!(matches!(a, CheckStep::Finish(Ok(()))));
}

#[test]
fn failed_remediation_ends_the_test() {
    let (s, _) = begin_check();
    let (s, _) = check_step(s, CheckEvent::Tested(TestOutcome::Failed { diagnostic: MODULE_ERR.to_string() }));
    let (_, a) = check_step(s, CheckEvent::Remediated(Err("make failed".to_string())));
    match a {
        CheckStep::Finish(Err(ValidationError::RemediationFailed { cause, diagnostic })) => {
            assert_eq!(cause, "make failed");
            assert_eq!(diagnostic, MODULE_ERR);
        }
        other => panic!("unexpected {:?}", other),
    }
}

#[test]
fn other_failures_are_returned_verbatim() {
    let (s, _) = begin_check();
    let (_, a) = check_step(s, CheckEvent::Tested(TestOutcome::Failed { diagnostic: "syntax".to_string() }));
    assert!(matches!(a, CheckStep::Finish(Err(ValidationError::Invalid { ref diagnostic })) if diagnostic == "syntax"));
    assert!(reports_missing_module(MODULE_ERR));
    assert!(!reports_missing_module("ngx_http_headers_more"));
}

#[test]
fn tls_bootstrap_stages() {
    assert_eq!(tls_step(TlsStage::NoCert, true, false, true), (TlsStage::ChallengeWrite, SiteStep::WriteBlock { tls: false }));
    assert_eq!(tls_step(TlsStage::NoCert, true, true, true), (TlsStage::PlainWrite, SiteStep::WriteBlock { tls: false }));
    assert_eq!(tls_step(TlsStage::NoCert, false, false, true), (TlsStage::PlainWrite, SiteStep::WriteBlock { tls: false }));
    assert_eq!(tls_step(TlsStage::ChallengeWrite, true, false, true), (TlsStage::ChallengeReload, SiteStep::Reload));
    assert_eq!(tls_step(TlsStage::ChallengeReload, true, false, false), (TlsStage::Failed, SiteStep::Abort));
    assert_eq!(tls_step(TlsStage::Issuing, true, false, false), (TlsStage::FallbackWrite, SiteStep::WriteBlock { tls: false }));
    assert_eq!(tls_step(TlsStage::FallbackWrite, true, false, true), (TlsStage::HttpFallback, SiteStep::Settled));
    assert_eq!(tls_step(TlsStage::TlsWrite, true, false, true), (TlsStage::CertIssued, SiteStep::Settled));
}

#[test]
fn certificate_request_installs_plugin_and_retries_once() {
    let (s, a) = begin_certificate(&Some("ops@example.com".to_string()));
    assert!(matches!(a, CertStep::CheckPlugin));
    let (s, a) = cert_step(s, CertEvent::PluginPresent(false));
    assert!(matches!(a, CertStep::InstallPlugin));
    let (s, a) = cert_step(s, CertEvent::PluginInstalled(Ok(())));
    assert!(matches!(a, CertStep::RequestCertificate));
    let refused = CertOutcome::Refused { stderr: "The requested nginx plugin does not appear to be installed".to_string(), stdout: String::new() };
    let (s, a) = cert_step(s, CertEvent::Requested(refused));
    assert!(matches!(a, CertStep::InstallPlugin));
    let (s, a) = cert_step(s, CertEvent::PluginInstalled(Ok(())));
    assert!(matches!(a, CertStep::RequestCertificate));
    let again = CertOutcome::Refused { stderr: "still".to_string(), stdout: String::new() };
    let (s, a) = cert_step(s, CertEvent::Requested(again));
    assert!(matches!(a, CertStep::Finish(Err(ProvisionError::RefusedAfterInstall { .. }))));
    assert!(matches!(s, CertStage::Done));
}

#[test]
fn certificate_request_other_refusal_and_success() {
    let (s, _) = begin_certificate(&Some("ops@example.com".to_string()));
    let (s, _) = cert_step(s, CertEvent::PluginPresent(true));
    let (_, a) = cert_step(s, CertEvent::Requested(CertOutcome::Refused { stderr: "rate limit".to_string(), stdout: "out".to_string() }));
    assert!(matches!(a, CertStep::Finish(Err(ProvisionError::Refused { .. }))));
    let (s, _) = begin_certificate(&Some("ops@example.com".to_string()));
    let (s, _) = cert_step(s, CertEvent::PluginPresent(true));
    let (_, a) = cert_step(s, CertEvent::Requested(CertOutcome::Issued));
    assert!(matches!(a, CertStep::Finish(Ok(()))));
    let (_, a) = begin_certificate(&None);
    assert!(matches!(a, CertStep::Finish(Err(ProvisionError::MissingEmail))));
    assert!(reports_plugin_trouble("Could not find nginx plugin"));
    assert!(!reports_plugin_trouble("Timeout"));
}

#[test]
fn validator_that_cannot_run() {
    let (s, _) = begin_check();
    let (_, a) = check_step(s, CheckEvent::Tested(TestOutcome::NotRun { cause: "no nginx".to_string() }));
    assert!(matches!(a, CheckStep::Finish(Err(ValidationError::NotRun { .. }))));
}

#[test]
fn certificate_plugin_install_failure_and_client_missing() {
    let (s, _) = begin_certificate(&Some("ops@example.com".to_string()));
    let (s, _) = cert_step(s, CertEvent::PluginPresent(false));
    let (_, a) = cert_step(s, CertEvent::PluginInstalled(Err("apt failed".to_string())));
    assert!(matches!(a, CertStep::Finish(Err(ProvisionError::PluginInstall { ref cause })) if cause == "apt failed"));
    let (s, _) = begin_certificate(&Some("ops@example.com".to_string()));
    let (s, _) = cert_step(s, CertEvent::PluginPresent(true));
    let (_, a) = cert_step(s, CertEvent::Requested(CertOutcome::NotRun { cause: "no certbot".to_string() }));
    assert!(matches!(a, CertStep::Finish(Err(ProvisionError::NotRun { .. }))));
}
