//! Certificate bootstrap for one domain: serve the challenge over HTTP, request the
//! certificate, then switch to the TLS block or fall back to plain HTTP.
use vstd::prelude::*;

use crate::text::{contains, contains_exec, to_chars};

verus! {

/// Where the bootstrap of one domain stands.
#[derive(Clone, Copy, Debug, PartialEq, Eq, Structural)]
pub enum TlsStage {
    /// Nothing written yet.
    NoCert,
    /// Writing the plain block of a domain that gets no certificate.
    PlainWrite,
    /// Writing the temporary plain block that serves the challenge.
    ChallengeWrite,
    /// Reloading the server so that the challenge path is served.
    ChallengeReload,
    /// Waiting for the certificate client.
    Issuing,
    /// Writing the final block with its TLS stanza.
    TlsWrite,
    /// Writing the plain block after the certificate request failed.
    FallbackWrite,
    /// Final: served over plain HTTP, no certificate was asked for.
    HttpOnly,
    /// Final: served over TLS.
    CertIssued,
    /// Final: the certificate request failed and the domain is served over plain HTTP.
    HttpFallback,
    /// Final: a write or reload failed; the batch stops.
    Failed,
}

/// What the caller is asked to do for the domain.
#[derive(Clone, Copy, Debug, PartialEq, Eq, Structural)]
pub enum SiteStep {
    /// Render the domain's block, with the TLS stanza when `tls` holds, write it to the
    /// available store and enable it.
    WriteBlock { tls: bool },
    /// Reload the server.
    Reload,
    /// Ask the certificate client for a certificate.
    IssueCertificate,
    /// The domain is done.
    Settled,
    /// A step failed; stop the batch.
    Abort,
}

/// The bootstrap transition. `ssl` is whether TLS was asked for, `ip` whether the
/// domain is a literal IP address, and `ok` whether the step last requested succeeded
/// (ignored in `NoCert`, where nothing was requested yet).
pub open spec fn tls_next(stage: TlsStage, ssl: bool, ip: bool, ok: bool) -> (TlsStage, SiteStep) {
    match stage {
        TlsStage::NoCert => if ssl && !ip {
            (TlsStage::ChallengeWrite, SiteStep::WriteBlock { tls: false })
        } else {
            (TlsStage::PlainWrite, SiteStep::WriteBlock { tls: false })
        },
        TlsStage::PlainWrite => if ok {
            (TlsStage::HttpOnly, SiteStep::Settled)
        } else {
            (TlsStage::Failed, SiteStep::Abort)
        },
        TlsStage::ChallengeWrite => if ok {
            (TlsStage::ChallengeReload, SiteStep::Reload)
        } else {
            (TlsStage::Failed, SiteStep::Abort)
        },
        TlsStage::ChallengeReload => if ok {
            (TlsStage::Issuing, SiteStep::IssueCertificate)
        } else {
            (TlsStage::Failed, SiteStep::Abort)
        },
        TlsStage::Issuing => if ok {
            (TlsStage::TlsWrite, SiteStep::WriteBlock { tls: true })
        } else {
            (TlsStage::FallbackWrite, SiteStep::WriteBlock { tls: false })
        },
        TlsStage::TlsWrite => if ok {
            (TlsStage::CertIssued, SiteStep::Settled)
        } else {
            (TlsStage::Failed, SiteStep::Abort)
        },
        TlsStage::FallbackWrite => if ok {
            (TlsStage::HttpFallback, SiteStep::Settled)
        } else {
            (TlsStage::Failed, SiteStep::Abort)
        },
        TlsStage::HttpOnly => (TlsStage::HttpOnly, SiteStep::Settled),
        TlsStage::CertIssued => (TlsStage::CertIssued, SiteStep::Settled),
        TlsStage::HttpFallback => (TlsStage::HttpFallback, SiteStep::Settled),
        TlsStage::Failed => (TlsStage::Failed, SiteStep::Abort),
    }
}

/// Advances the bootstrap of one domain.
pub fn tls_step(stage: TlsStage, ssl: bool, ip: bool, ok: bool) -> (r: (TlsStage, SiteStep))
    ensures
        r == tls_next(stage, ssl, ip, ok),
{
    match stage {
        TlsStage::NoCert => if ssl && !ip {
            (TlsStage::ChallengeWrite, SiteStep::WriteBlock { tls: false })
        } else {
            (TlsStage::PlainWrite, SiteStep::WriteBlock { tls: false })
        },
        TlsStage::PlainWrite => if ok {
            (TlsStage::HttpOnly, SiteStep::Settled)
        } else {
            (TlsStage::Failed, SiteStep::Abort)
        },
        TlsStage::ChallengeWrite => if ok {
            (TlsStage::ChallengeReload, SiteStep::Reload)
        } else {
            (TlsStage::Failed, SiteStep::Abort)
        },
        TlsStage::ChallengeReload => if ok {
            (TlsStage::Issuing, SiteStep::IssueCertificate)
        } else {
            (TlsStage::Failed, SiteStep::Abort)
        },
        TlsStage::Issuing => if ok {
            (TlsStage::TlsWrite, SiteStep::WriteBlock { tls: true })
        } else {
            (TlsStage::FallbackWrite, SiteStep::WriteBlock { tls: false })
        },
        TlsStage::TlsWrite => if ok {
            (TlsStage::CertIssued, SiteStep::Settled)
        } else {
            (TlsStage::Failed, SiteStep::Abort)
        },
        TlsStage::FallbackWrite => if ok {
            (TlsStage::HttpFallback, SiteStep::Settled)
        } else {
            (TlsStage::Failed, SiteStep::Abort)
        },
        TlsStage::HttpOnly => (TlsStage::HttpOnly, SiteStep::Settled),
        TlsStage::CertIssued => (TlsStage::CertIssued, SiteStep::Settled),
        TlsStage::HttpFallback => (TlsStage::HttpFallback, SiteStep::Settled),
        TlsStage::Failed => (TlsStage::Failed, SiteStep::Abort),
    }
}

/// The stages that a domain which is a literal IP address can reach.
pub open spec fn ip_reachable(stage: TlsStage) -> bool {
    stage == TlsStage::NoCert || stage == TlsStage::PlainWrite || stage == TlsStage::HttpOnly
        || stage == TlsStage::Failed
}

/// A domain that is a literal IP address is never given a TLS block, whatever was asked
/// and whatever the steps report: from every stage it can reach, the next step writes
/// no TLS stanza, and the stage it moves to is again one it can reach.
pub proof fn lemma_ip_literal_never_tls(stage: TlsStage, ssl: bool, ok: bool)
    requires
        ip_reachable(stage),
    ensures
        tls_next(stage, ssl, true, ok).1 != (SiteStep::WriteBlock { tls: true }),
        ip_reachable(tls_next(stage, ssl, true, ok).0),
{
}

/// A certificate failure degrades the domain to plain HTTP and never aborts the batch.
pub proof fn lemma_certificate_failure_falls_back(ssl: bool, ip: bool, ok: bool)
    ensures
        tls_next(TlsStage::Issuing, ssl, ip, false) == (
            TlsStage::FallbackWrite,
            SiteStep::WriteBlock { tls: false },
        ),
        ok ==> tls_next(TlsStage::FallbackWrite, ssl, ip, ok) == (
            TlsStage::HttpFallback,
            SiteStep::Settled,
        ),
{
}

/// What one run of the certificate client reported.
#[derive(Debug)]
pub enum CertOutcome {
    /// A certificate was issued.
    Issued,
    /// The client refused; its output says why.
    Refused { stderr: String, stdout: String },
    /// The client could not be started.
    NotRun { cause: String },
}

/// Why no certificate was obtained.
#[derive(Debug)]
pub enum ProvisionError {
    /// The domain names no contact email.
    MissingEmail,
    /// The client's web-server plugin could not be installed.
    PluginInstall { cause: String },
    /// The client refused, for a reason other than its plugin.
    Refused { stderr: String, stdout: String },
    /// The client refused again after its plugin was installed.
    RefusedAfterInstall { stderr: String },
    /// The client could not be started.
    NotRun { cause: String },
}

/// Where a certificate request stands.
#[derive(Debug)]
pub enum CertStage {
    /// Waiting to learn whether the client's web-server plugin is present.
    CheckingPlugin,
    /// Waiting for the plugin installation; `retry` when it follows a refusal.
    InstallingPlugin { retry: bool },
    /// Waiting for the client; `retry` for the one request after a plugin repair.
    Requesting { retry: bool },
    /// Finished.
    Done,
}

/// What the caller is asked to do for the certificate request.
#[derive(Debug)]
pub enum CertStep {
    /// Report whether the client's web-server plugin is present.
    CheckPlugin,
    /// Install the plugin and report the result.
    InstallPlugin,
    /// Run the client for the domain and its email and report what it said.
    RequestCertificate,
    /// The request is over, with this result.
    Finish(Result<(), ProvisionError>),
    /// Nothing is awaited.
    Idle,
}

/// What the caller reports back.
#[derive(Debug)]
pub enum CertEvent {
    /// Whether the plugin is present.
    PluginPresent(bool),
    /// The plugin installation finished, or failed for the reason given.
    PluginInstalled(Result<(), String>),
    /// What the client reported.
    Requested(CertOutcome),
}

/// Signs in the client's error output that its web-server plugin is missing or broken.
pub open spec fn plugin_trouble(stderr: Seq<char>) -> bool {
    contains(stderr, "does not appear to be installed"@) || contains(stderr, "nginx plugin"@)
}

/// The certificate request transition. The plugin is installed when missing; a refusal
/// that blames the plugin leads to one installation and one retried request.
pub open spec fn cert_next(stage: CertStage, event: CertEvent) -> (CertStage, CertStep) {
    match stage {
        CertStage::CheckingPlugin => match event {
            CertEvent::PluginPresent(true) => (
                CertStage::Requesting { retry: false },
                CertStep::RequestCertificate,
            ),
            CertEvent::PluginPresent(false) => (
                CertStage::InstallingPlugin { retry: false },
                CertStep::InstallPlugin,
            ),
            _ => (CertStage::CheckingPlugin, CertStep::CheckPlugin),
        },
        CertStage::InstallingPlugin { retry } => match event {
            CertEvent::PluginInstalled(Ok(())) => (
                CertStage::Requesting { retry },
                CertStep::RequestCertificate,
            ),
            CertEvent::PluginInstalled(Err(cause)) => (
                CertStage::Done,
                CertStep::Finish(Err(ProvisionError::PluginInstall { cause })),
            ),
            _ => (CertStage::InstallingPlugin { retry }, CertStep::InstallPlugin),
        },
        CertStage::Requesting { retry } => match event {
            CertEvent::Requested(CertOutcome::Issued) => (CertStage::Done, CertStep::Finish(Ok(()))),
            CertEvent::Requested(CertOutcome::NotRun { cause }) => (
                CertStage::Done,
                CertStep::Finish(Err(ProvisionError::NotRun { cause })),
            ),
            CertEvent::Requested(CertOutcome::Refused { stderr, stdout }) => if retry {
                (
                    CertStage::Done,
                    CertStep::Finish(Err(ProvisionError::RefusedAfterInstall { stderr })),
                )
            } else if plugin_trouble(stderr@) {
                (CertStage::InstallingPlugin { retry: true }, CertStep::InstallPlugin)
            } else {
                (CertStage::Done, CertStep::Finish(Err(ProvisionError::Refused { stderr, stdout })))
            },
            _ => (CertStage::Requesting { retry }, CertStep::RequestCertificate),
        },
        CertStage::Done => (CertStage::Done, CertStep::Idle),
    }
}

/// Whether the client's error output blames its web-server plugin.
pub fn reports_plugin_trouble(stderr: &str) -> (r: bool)
    ensures
        r == plugin_trouble(stderr@),
{
    let s = to_chars(stderr);
    contains_exec(&s, &to_chars("does not appear to be installed")) || contains_exec(
        &s,
        &to_chars("nginx plugin"),
    )
}

/// Starts a certificate request. A domain without an email is refused at once;
/// otherwise the first request is the plugin check.
pub fn begin_certificate(email: &Option<String>) -> (r: (CertStage, CertStep))
    ensures
        email is None ==> r.0 == CertStage::Done && r.1 == CertStep::Finish(
            Err(ProvisionError::MissingEmail),
        ),
        email is Some ==> r.0 == CertStage::CheckingPlugin && r.1 == CertStep::CheckPlugin,
{
    match email {
        None => (CertStage::Done, CertStep::Finish(Err(ProvisionError::MissingEmail))),
        Some(_) => (CertStage::CheckingPlugin, CertStep::CheckPlugin),
    }
}

/// Advances a certificate request by one reported event.
pub fn cert_step(stage: CertStage, event: CertEvent) -> (r: (CertStage, CertStep))
    ensures
        r == cert_next(stage, event),
{
    match stage {
        CertStage::CheckingPlugin => match event {
            CertEvent::PluginPresent(true) => (
                CertStage::Requesting { retry: false },
                CertStep::RequestCertificate,
            ),
            CertEvent::PluginPresent(false) => (
                CertStage::InstallingPlugin { retry: false },
                CertStep::InstallPlugin,
            ),
            _ => (CertStage::CheckingPlugin, CertStep::CheckPlugin),
        },
        CertStage::InstallingPlugin { retry } => match event {
            CertEvent::PluginInstalled(Ok(())) => (
                CertStage::Requesting { retry },
                CertStep::RequestCertificate,
            ),
            CertEvent::PluginInstalled(Err(cause)) => (
                CertStage::Done,
                CertStep::Finish(Err(ProvisionError::PluginInstall { cause })),
            ),
            _ => (CertStage::InstallingPlugin { retry }, CertStep::InstallPlugin),
        },
        CertStage::Requesting { retry } => match event {
            CertEvent::Requested(CertOutcome::Issued) => (CertStage::Done, CertStep::Finish(Ok(()))),
            CertEvent::Requested(CertOutcome::NotRun { cause }) => (
                CertStage::Done,
                CertStep::Finish(Err(ProvisionError::NotRun { cause })),
            ),
            CertEvent::Requested(CertOutcome::Refused { stderr, stdout }) => {
                if retry {
                    (
                        CertStage::Done,
                        CertStep::Finish(Err(ProvisionError::RefusedAfterInstall { stderr })),
                    )
                } else if reports_plugin_trouble(stderr.as_str()) {
                    (CertStage::InstallingPlugin { retry: true }, CertStep::InstallPlugin)
                } else {
                    (
                        CertStage::Done,
                        CertStep::Finish(Err(ProvisionError::Refused { stderr, stdout })),
                    )
                }
            },
            _ => (CertStage::Requesting { retry }, CertStep::RequestCertificate),
        },
        CertStage::Done => (CertStage::Done, CertStep::Idle),
    }
}

} // verus!
