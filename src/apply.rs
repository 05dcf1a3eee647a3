//! The apply transaction: snapshot, purge broken sites, write and enable every domain
//! of the batch in order, validate, then commit or roll back to the snapshot.
//!
//! The engine decides; the caller performs each requested action and reports back.
use vstd::prelude::*;

use crate::models::{batch_ok, lacks_email, BatchError, Config, DomainConfig};
use crate::ssl::{ip_reachable, lemma_ip_literal_never_tls, tls_next, tls_step, SiteStep, TlsStage};

verus! {

/// Why an apply transaction ended without committing.
#[derive(Debug)]
pub enum ApplyError {
    /// The batch was refused before anything was touched.
    Batch(BatchError),
    /// The snapshot could not be taken; nothing was changed.
    Snapshot { cause: String },
    /// The validator could not be run to look for broken sites.
    Detection { cause: String },
    /// The shared base assets could not be installed.
    Assets { cause: String },
    /// Writing, enabling or reloading for the domain at `index` failed.
    Site { index: usize, cause: String },
    /// The configuration is invalid; `rolled_back` tells whether the snapshot was restored.
    Invalid { diagnostic: String, rolled_back: bool },
    /// The configuration is invalid and restoring the snapshot failed too.
    Rollback { cause: String, diagnostic: String },
    /// The final reload failed.
    Reload { cause: String },
}

/// What the caller is asked to do next.
#[derive(Debug)]
pub enum Action {
    /// Copy the available and enabled stores into a new snapshot.
    CreateSnapshot,
    /// Run the validator and report the broken sites its output blames.
    DetectBroken,
    /// Remove the enabled reference and the available document of a broken site.
    RemoveConfig { domain: String },
    /// Install the main configuration and the error pages.
    InstallBaseAssets,
    /// Render the block of the domain at `index`, with the TLS stanza when `tls`
    /// holds, write it to the available store and enable it.
    WriteBlock { index: usize, tls: bool },
    /// Reload the server.
    Reload,
    /// Request a certificate for the domain at `index`.
    IssueCertificate { index: usize },
    /// Run the self-healing configuration test.
    Validate,
    /// Restore the most recent snapshot over both stores.
    RestoreLatest,
    /// The transaction is over, with this result.
    Finish(Result<(), ApplyError>),
    /// Nothing is awaited.
    Idle,
}

/// What the caller reports back.
#[derive(Debug)]
pub enum Event {
    /// The requested action succeeded.
    Done,
    /// The requested action failed, for this reason (for a validation, the diagnostic).
    Failed { cause: String },
    /// The broken sites found by a detection.
    Broken { domains: Vec<String> },
}

/// Where the transaction stands.
#[derive(Debug)]
pub enum Phase {
    /// Waiting for the snapshot.
    Snapshotting,
    /// Waiting for the broken-site detection.
    Detecting,
    /// Waiting for the removal of the broken site at `next`; failures are ignored.
    Purging { next: usize },
    /// Waiting for the base assets.
    Installing,
    /// Bootstrapping the domain at `index`.
    Site { index: usize, stage: TlsStage },
    /// Waiting for the self-healing configuration test.
    Validating,
    /// Waiting for the snapshot restore after the test failed with `diagnostic`.
    RollingBack { diagnostic: String },
    /// Waiting for the final reload.
    Reloading,
    /// Finished; nothing more is requested.
    Done,
}

/// The state of one apply transaction.
#[derive(Debug)]
pub struct ApplyEngine {
    /// The batch, in the order in which its domains are applied.
    pub config: Config,
    /// For each domain of the batch, whether it is a literal IP address.
    pub ip_literal: Vec<bool>,
    /// Whether a snapshot is taken first, and so whether a rollback is possible.
    pub backup: bool,
    /// Whether an invalid configuration is committed anyway.
    pub force: bool,
    /// The broken sites found by the detection.
    pub broken: Vec<String>,
    /// Where the transaction stands.
    pub phase: Phase,
}

impl ApplyEngine {
    /// The indexes the engine holds stay within the lists they point into.
    pub open spec fn wf(&self) -> bool {
        &&& self.ip_literal.len() == self.config.domains.len()
        &&& self.phase matches Phase::Purging { next } ==> next < self.broken.len()
        &&& self.phase matches Phase::Site { index, .. } ==> index < self.config.domains.len()
    }
}

/// The request that starts the domain at `index`, or validation once all are written.
pub open spec fn enter_site(e: ApplyEngine, index: int) -> (ApplyEngine, Action) {
    if 0 <= index < e.config.domains.len() {
        let d = e.config.domains[index as int];
        let (stage, step) = tls_next(TlsStage::NoCert, d.ssl, e.ip_literal[index as int], true);
        (
            ApplyEngine { phase: Phase::Site { index: index as usize, stage }, ..e },
            site_action(index as usize, step),
        )
    } else {
        (ApplyEngine { phase: Phase::Validating, ..e }, Action::Validate)
    }
}

/// The transaction's request for a step of a domain's bootstrap.
pub open spec fn site_action(index: usize, step: SiteStep) -> Action {
    match step {
        SiteStep::WriteBlock { tls } => Action::WriteBlock { index, tls },
        SiteStep::Reload => Action::Reload,
        SiteStep::IssueCertificate => Action::IssueCertificate { index },
        _ => Action::Idle,
    }
}

/// The request after the broken site at `next` (or, past the end, after the purge).
pub open spec fn purge_from(e: ApplyEngine, next: int) -> (ApplyEngine, Action) {
    if 0 <= next < e.broken.len() {
        (
            ApplyEngine { phase: Phase::Purging { next: next as usize }, ..e },
            Action::RemoveConfig { domain: e.broken[next as int] },
        )
    } else {
        (ApplyEngine { phase: Phase::Installing, ..e }, Action::InstallBaseAssets)
    }
}

/// Commit: reload when the batch asks for it, else finish.
pub open spec fn commit(e: ApplyEngine) -> (ApplyEngine, Action) {
    if e.config.auto_reload {
        (ApplyEngine { phase: Phase::Reloading, ..e }, Action::Reload)
    } else {
        (ApplyEngine { phase: Phase::Done, ..e }, Action::Finish(Ok(())))
    }
}

/// Ends the transaction with `result`.
pub open spec fn finish(e: ApplyEngine, result: Result<(), ApplyError>) -> (ApplyEngine, Action) {
    (ApplyEngine { phase: Phase::Done, ..e }, Action::Finish(result))
}

/// Moves on within the domain at `index`, or to the next domain once it is settled.
pub open spec fn site_continue(e: ApplyEngine, index: usize, stage: TlsStage, step: SiteStep) -> (
    ApplyEngine,
    Action,
) {
    if step == SiteStep::Settled {
        enter_site(e, index + 1)
    } else {
        (ApplyEngine { phase: Phase::Site { index, stage }, ..e }, site_action(index, step))
    }
}

/// The transition of the apply transaction.
pub open spec fn apply_next(e: ApplyEngine, event: Event) -> (ApplyEngine, Action) {
    match e.phase {
        Phase::Snapshotting => match event {
            Event::Failed { cause } => finish(e, Err(ApplyError::Snapshot { cause })),
            _ => (ApplyEngine { phase: Phase::Detecting, ..e }, Action::DetectBroken),
        },
        Phase::Detecting => match event {
            Event::Failed { cause } => finish(e, Err(ApplyError::Detection { cause })),
            Event::Broken { domains } => purge_from(ApplyEngine { broken: domains, ..e }, 0),
            Event::Done => purge_from(e, e.broken.len() as int),
        },
        Phase::Purging { next } => purge_from(e, next + 1),
        Phase::Installing => match event {
            Event::Failed { cause } => finish(e, Err(ApplyError::Assets { cause })),
            _ => enter_site(e, 0),
        },
        Phase::Site { index, stage } => {
            let ssl = e.config.domains[index as int].ssl;
            let ip = e.ip_literal[index as int];
            match event {
                Event::Failed { cause } => {
                    let (stage2, step) = tls_next(stage, ssl, ip, false);
                    if step == SiteStep::Abort {
                        finish(e, Err(ApplyError::Site { index, cause }))
                    } else {
                        site_continue(e, index, stage2, step)
                    }
                },
                _ => {
                    let (stage2, step) = tls_next(stage, ssl, ip, true);
                    if step == SiteStep::Abort {
                        (e, Action::Idle)
                    } else {
                        site_continue(e, index, stage2, step)
                    }
                },
            }
        },
        Phase::Validating => match event {
            Event::Failed { cause } => if e.force {
                commit(e)
            } else if e.backup {
                (
                    ApplyEngine { phase: Phase::RollingBack { diagnostic: cause }, ..e },
                    Action::RestoreLatest,
                )
            } else {
                finish(e, Err(ApplyError::Invalid { diagnostic: cause, rolled_back: false }))
            },
            _ => commit(e),
        },
        Phase::RollingBack { diagnostic } => match event {
            Event::Failed { cause } => finish(e, Err(ApplyError::Rollback { cause, diagnostic })),
            _ => finish(e, Err(ApplyError::Invalid { diagnostic, rolled_back: true })),
        },
        Phase::Reloading => match event {
            Event::Failed { cause } => finish(e, Err(ApplyError::Reload { cause })),
            _ => finish(e, Ok(())),
        },
        Phase::Done => (e, Action::Idle),
    }
}

/// Without the force flag and with backups on, a failed validation is answered by
/// restoring the snapshot taken at the start, and the transaction then ends with the
/// validation error whether or not the restore succeeded; nothing is committed.
pub proof fn lemma_invalid_rolls_back(e: ApplyEngine, diagnostic: String, restore: Event)
    requires
        e.wf(),
        e.phase == Phase::Validating,
        !e.force,
        e.backup,
    ensures
        ({
            let (e1, a1) = apply_next(e, Event::Failed { cause: diagnostic });
            let (e2, a2) = apply_next(e1, restore);
            &&& a1 == Action::RestoreLatest
            &&& e2.phase == Phase::Done
            &&& restore matches Event::Failed { cause } ==> a2 == Action::Finish(
                Err(ApplyError::Rollback { cause, diagnostic }),
            )
            &&& !(restore is Failed) ==> a2 == Action::Finish(
                Err(ApplyError::Invalid { diagnostic, rolled_back: true }),
            )
        }),
{
}

/// A domain that is a literal IP address gets no TLS block from the transaction: it is
/// entered in a stage it can reach, and from such a stage no event leads to a request
/// for a TLS block (the next domain, if the event settles this one, starts with a
/// plain block too), nor to a stage it cannot reach.
pub proof fn lemma_ip_literal_gets_no_tls(e: ApplyEngine, index: usize, stage: TlsStage, event: Event)
    requires
        e.wf(),
        index < e.config.domains.len(),
        e.ip_literal[index as int],
    ensures
        enter_site(e, index as int).0.phase == (Phase::Site { index, stage: TlsStage::PlainWrite }),
        e.phase == (Phase::Site { index, stage }) && ip_reachable(stage) ==> {
            let (e2, a) = apply_next(e, event);
            &&& !(a matches Action::WriteBlock { tls, .. } && tls)
            &&& (e2.phase matches Phase::Site { index: i, stage: s } ==> i == index ==> ip_reachable(s))
        },
{
    let ssl = e.config.domains[index as int].ssl;
    if ip_reachable(stage) {
        lemma_ip_literal_never_tls(stage, ssl, true);
        lemma_ip_literal_never_tls(stage, ssl, false);
    }
}

/// With the force flag a failed validation commits as if it had passed.
pub proof fn lemma_force_commits(e: ApplyEngine, diagnostic: String)
    requires
        e.wf(),
        e.phase == Phase::Validating,
        e.force,
    ensures
        apply_next(e, Event::Failed { cause: diagnostic }) == commit(e),
{
}

/// A batch with a domain that asks for TLS without an email fails the batch check, so
/// `ApplyEngine::start` refuses it before it requests any action.
pub proof fn lemma_missing_email_refused(config: Config, index: int)
    requires
        0 <= index < config.domains.len(),
        lacks_email(config.domains[index]),
    ensures
        !batch_ok(config.domains@),
{
}

fn site_action_exec(index: usize, step: SiteStep) -> (r: Action)
    ensures
        r == site_action(index, step),
{
    match step {
        SiteStep::WriteBlock { tls } => Action::WriteBlock { index, tls },
        SiteStep::Reload => Action::Reload,
        SiteStep::IssueCertificate => Action::IssueCertificate { index },
        _ => Action::Idle,
    }
}

fn enter_site_exec(e: ApplyEngine, index: usize) -> (r: (ApplyEngine, Action))
    requires
        e.ip_literal.len() == e.config.domains.len(),
    ensures
        r == enter_site(e, index as int),
        r.0.wf(),
{
    if index < e.config.domains.len() {
        let ssl = e.config.domains[index].ssl;
        let ip = e.ip_literal[index];
        let (stage, step) = tls_step(TlsStage::NoCert, ssl, ip, true);
        (ApplyEngine { phase: Phase::Site { index, stage }, ..e }, site_action_exec(index, step))
    } else {
        (ApplyEngine { phase: Phase::Validating, ..e }, Action::Validate)
    }
}

fn purge_from_exec(e: ApplyEngine, next: usize) -> (r: (ApplyEngine, Action))
    requires
        e.ip_literal.len() == e.config.domains.len(),
    ensures
        r == purge_from(e, next as int),
        r.0.wf(),
{
    if next < e.broken.len() {
        let domain = e.broken[next].clone();
        (ApplyEngine { phase: Phase::Purging { next }, ..e }, Action::RemoveConfig { domain })
    } else {
        (ApplyEngine { phase: Phase::Installing, ..e }, Action::InstallBaseAssets)
    }
}

fn commit_exec(e: ApplyEngine) -> (r: (ApplyEngine, Action))
    requires
        e.ip_literal.len() == e.config.domains.len(),
    ensures
        r == commit(e),
        r.0.wf(),
{
    if e.config.auto_reload {
        (ApplyEngine { phase: Phase::Reloading, ..e }, Action::Reload)
    } else {
        (ApplyEngine { phase: Phase::Done, ..e }, Action::Finish(Ok(())))
    }
}

fn site_continue_exec(e: ApplyEngine, index: usize, stage: TlsStage, step: SiteStep) -> (r: (
    ApplyEngine,
    Action,
))
    requires
        e.ip_literal.len() == e.config.domains.len(),
        index < e.config.domains.len(),
    ensures
        r == site_continue(e, index, stage, step),
        r.0.wf(),
{
    if step == SiteStep::Settled {
        enter_site_exec(e, index + 1)
    } else {
        (ApplyEngine { phase: Phase::Site { index, stage }, ..e }, site_action_exec(index, step))
    }
}

impl ApplyEngine {
    /// Opens a transaction over a batch. A batch with a domain that asks for TLS without
    /// an email is refused here, before any action is requested. Otherwise the first
    /// request is the snapshot when backups are on, and the broken-site detection when
    /// they are off.
    pub fn start(config: Config, ip_literal: Vec<bool>, backup: bool, force: bool) -> (r: Result<
        (ApplyEngine, Action),
        ApplyError,
    >)
        requires
            ip_literal.len() == config.domains.len(),
        ensures
            r is Ok <==> batch_ok(config.domains@),
            r matches Err(err) ==> (err matches ApplyError::Batch(BatchError::MissingEmail { index })
                && index < config.domains.len() && lacks_email(config.domains@[index as int])),
            r matches Ok((e, a)) ==> {
                &&& e.wf()
                &&& e.config == config
                &&& e.ip_literal == ip_literal
                &&& e.backup == backup
                &&& e.force == force
                &&& e.broken@.len() == 0
                &&& backup ==> e.phase == Phase::Snapshotting && a == Action::CreateSnapshot
                &&& !backup ==> e.phase == Phase::Detecting && a == Action::DetectBroken
            },
    {
        match config.check() {
            Err(err) => Err(ApplyError::Batch(err)),
            Ok(()) => {
                let phase = if backup {
                    Phase::Snapshotting
                } else {
                    Phase::Detecting
                };
                let action = if backup {
                    Action::CreateSnapshot
                } else {
                    Action::DetectBroken
                };
                Ok((ApplyEngine { config, ip_literal, backup, force, broken: Vec::new(), phase }, action))
            },
        }
    }

    /// Advances the transaction by one reported event.
    pub fn step(self, event: Event) -> (r: (ApplyEngine, Action))
        requires
            self.wf(),
        ensures
            r == apply_next(self, event),
            r.0.wf(),
    {
        let e = self;
        match e.phase {
            Phase::Snapshotting => match event {
                Event::Failed { cause } => (
                    ApplyEngine { phase: Phase::Done, ..e },
                    Action::Finish(Err(ApplyError::Snapshot { cause })),
                ),
                _ => (ApplyEngine { phase: Phase::Detecting, ..e }, Action::DetectBroken),
            },
            Phase::Detecting => match event {
                Event::Failed { cause } => (
                    ApplyEngine { phase: Phase::Done, ..e },
                    Action::Finish(Err(ApplyError::Detection { cause })),
                ),
                Event::Broken { domains } => purge_from_exec(ApplyEngine { broken: domains, ..e }, 0),
                Event::Done => {
                    let n = e.broken.len();
                    purge_from_exec(e, n)
                },
            },
            Phase::Purging { next } => purge_from_exec(e, next + 1),
            Phase::Installing => match event {
                Event::Failed { cause } => (
                    ApplyEngine { phase: Phase::Done, ..e },
                    Action::Finish(Err(ApplyError::Assets { cause })),
                ),
                _ => enter_site_exec(e, 0),
            },
            Phase::Site { index, stage } => {
                let ssl = e.config.domains[index].ssl;
                let ip = e.ip_literal[index];
                match event {
                    Event::Failed { cause } => {
                        let (stage2, step) = tls_step(stage, ssl, ip, false);
                        if step == SiteStep::Abort {
                            (
                                ApplyEngine { phase: Phase::Done, ..e },
                                Action::Finish(Err(ApplyError::Site { index, cause })),
                            )
                        } else {
                            site_continue_exec(e, index, stage2, step)
                        }
                    },
                    _ => {
                        let (stage2, step) = tls_step(stage, ssl, ip, true);
                        if step == SiteStep::Abort {
                            (e, Action::Idle)
                        } else {
                            site_continue_exec(e, index, stage2, step)
                        }
                    },
                }
            },
            Phase::Validating => match event {
                Event::Failed { cause } => {
                    if e.force {
                        commit_exec(e)
                    } else if e.backup {
                        (
                            ApplyEngine { phase: Phase::RollingBack { diagnostic: cause }, ..e },
                            Action::RestoreLatest,
                        )
                    } else {
                        (
                            ApplyEngine { phase: Phase::Done, ..e },
                            Action::Finish(
                                Err(ApplyError::Invalid { diagnostic: cause, rolled_back: false }),
                            ),
                        )
                    }
                },
                _ => commit_exec(e),
            },
            Phase::RollingBack { diagnostic } => match event {
                Event::Failed { cause } => (
                    ApplyEngine { phase: Phase::Done, ..e },
                    Action::Finish(Err(ApplyError::Rollback { cause, diagnostic })),
                ),
                _ => (
                    ApplyEngine { phase: Phase::Done, ..e },
                    Action::Finish(Err(ApplyError::Invalid { diagnostic, rolled_back: true })),
                ),
            },
            Phase::Reloading => match event {
                Event::Failed { cause } => (
                    ApplyEngine { phase: Phase::Done, ..e },
                    Action::Finish(Err(ApplyError::Reload { cause })),
                ),
                _ => (ApplyEngine { phase: Phase::Done, ..e }, Action::Finish(Ok(()))),
            },
            Phase::Done => (e, Action::Idle),
        }
    }
}

} // verus!
