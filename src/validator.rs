//! The self-healing configuration test: one validator run, and on the known
//! missing-module failure a single remediation followed by a single retest.
use vstd::prelude::*;

use crate::text::{contains, contains_exec, to_chars};

verus! {

/// The dynamic module whose absence the validator reports by naming this file.
pub open spec fn missing_module_file() -> Seq<char> {
    "ngx_http_headers_more_filter_module.so"@
}

/// What one validator run reported.
#[derive(Debug)]
pub enum TestOutcome {
    /// The configuration is valid.
    Passed,
    /// The configuration is invalid; the validator said why.
    Failed { diagnostic: String },
    /// The validator could not be started.
    NotRun { cause: String },
}

/// Why the configuration is not valid.
#[derive(Debug)]
pub enum ValidationError {
    /// Invalid, for a reason no remediation addresses.
    Invalid { diagnostic: String },
    /// Still invalid after installing the missing module.
    StillInvalid { diagnostic: String },
    /// The missing module could not be installed.
    RemediationFailed { cause: String, diagnostic: String },
    /// The validator could not be started.
    NotRun { cause: String },
}

/// Where a self-healing test stands.
#[derive(Debug)]
pub enum CheckStage {
    /// Waiting for the first validator run.
    Testing,
    /// Waiting for the module installation that the first run asked for.
    Remediating { diagnostic: String },
    /// Waiting for the one retest after installation.
    Retesting,
    /// Finished; nothing more is asked.
    Done,
}

/// What the caller is asked to do next.
#[derive(Debug)]
pub enum CheckStep {
    /// Run the validator and report what it said.
    RunTest,
    /// Install the missing module, patch the main configuration, and report the result.
    Remediate,
    /// The test is over, with this verdict.
    Finish(Result<(), ValidationError>),
    /// Nothing is awaited.
    Idle,
}

/// What the caller reports back.
#[derive(Debug)]
pub enum CheckEvent {
    /// The validator ran, or could not be started.
    Tested(TestOutcome),
    /// The module installation finished, or failed for the reason given.
    Remediated(Result<(), String>),
}

/// The transition of the self-healing test. An event that the stage does not await
/// leaves it as it is and repeats the request.
pub open spec fn check_next(stage: CheckStage, event: CheckEvent) -> (CheckStage, CheckStep) {
    match stage {
        CheckStage::Testing => match event {
            CheckEvent::Tested(TestOutcome::Passed) => (CheckStage::Done, CheckStep::Finish(Ok(()))),
            CheckEvent::Tested(TestOutcome::Failed { diagnostic }) => if contains(
                diagnostic@,
                missing_module_file(),
            ) {
                (CheckStage::Remediating { diagnostic }, CheckStep::Remediate)
            } else {
                (CheckStage::Done, CheckStep::Finish(Err(ValidationError::Invalid { diagnostic })))
            },
            CheckEvent::Tested(TestOutcome::NotRun { cause }) => (
                CheckStage::Done,
                CheckStep::Finish(Err(ValidationError::NotRun { cause })),
            ),
            CheckEvent::Remediated(_) => (CheckStage::Testing, CheckStep::RunTest),
        },
        CheckStage::Remediating { diagnostic } => match event {
            CheckEvent::Remediated(Ok(())) => (CheckStage::Retesting, CheckStep::RunTest),
            CheckEvent::Remediated(Err(cause)) => (
                CheckStage::Done,
                CheckStep::Finish(Err(ValidationError::RemediationFailed { cause, diagnostic })),
            ),
            CheckEvent::Tested(_) => (CheckStage::Remediating { diagnostic }, CheckStep::Remediate),
        },
        CheckStage::Retesting => match event {
            CheckEvent::Tested(TestOutcome::Passed) => (CheckStage::Done, CheckStep::Finish(Ok(()))),
            CheckEvent::Tested(TestOutcome::Failed { diagnostic }) => (
                CheckStage::Done,
                CheckStep::Finish(Err(ValidationError::StillInvalid { diagnostic })),
            ),
            CheckEvent::Tested(TestOutcome::NotRun { cause }) => (
                CheckStage::Done,
                CheckStep::Finish(Err(ValidationError::NotRun { cause })),
            ),
            CheckEvent::Remediated(_) => (CheckStage::Retesting, CheckStep::RunTest),
        },
        CheckStage::Done => (CheckStage::Done, CheckStep::Idle),
    }
}

/// Whether a diagnostic reports the missing dynamic module.
pub fn reports_missing_module(diagnostic: &str) -> (r: bool)
    ensures
        r == contains(diagnostic@, missing_module_file()),
{
    contains_exec(&to_chars(diagnostic), &to_chars("ngx_http_headers_more_filter_module.so"))
}

/// Starts a self-healing test: the first request is a validator run.
pub fn begin_check() -> (r: (CheckStage, CheckStep))
    ensures
        r.0 == CheckStage::Testing,
        r.1 == CheckStep::RunTest,
{
    (CheckStage::Testing, CheckStep::RunTest)
}

/// Advances a self-healing test by one reported event.
pub fn check_step(stage: CheckStage, event: CheckEvent) -> (r: (CheckStage, CheckStep))
    ensures
        r == check_next(stage, event),
{
    match stage {
        CheckStage::Testing => match event {
            CheckEvent::Tested(TestOutcome::Passed) => (CheckStage::Done, CheckStep::Finish(Ok(()))),
            CheckEvent::Tested(TestOutcome::Failed { diagnostic }) => {
                if reports_missing_module(diagnostic.as_str()) {
                    (CheckStage::Remediating { diagnostic }, CheckStep::Remediate)
                } else {
                    (CheckStage::Done, CheckStep::Finish(Err(ValidationError::Invalid { diagnostic })))
                }
            },
            CheckEvent::Tested(TestOutcome::NotRun { cause }) => (
                CheckStage::Done,
                CheckStep::Finish(Err(ValidationError::NotRun { cause })),
            ),
            CheckEvent::Remediated(_) => (CheckStage::Testing, CheckStep::RunTest),
        },
        CheckStage::Remediating { diagnostic } => match event {
            CheckEvent::Remediated(Ok(())) => (CheckStage::Retesting, CheckStep::RunTest),
            CheckEvent::Remediated(Err(cause)) => (
                CheckStage::Done,
                CheckStep::Finish(Err(ValidationError::RemediationFailed { cause, diagnostic })),
            ),
            CheckEvent::Tested(_) => (CheckStage::Remediating { diagnostic }, CheckStep::Remediate),
        },
        CheckStage::Retesting => match event {
            CheckEvent::Tested(TestOutcome::Passed) => (CheckStage::Done, CheckStep::Finish(Ok(()))),
            CheckEvent::Tested(TestOutcome::Failed { diagnostic }) => (
                CheckStage::Done,
                CheckStep::Finish(Err(ValidationError::StillInvalid { diagnostic })),
            ),
            CheckEvent::Tested(TestOutcome::NotRun { cause }) => (
                CheckStage::Done,
                CheckStep::Finish(Err(ValidationError::NotRun { cause })),
            ),
            CheckEvent::Remediated(_) => (CheckStage::Retesting, CheckStep::RunTest),
        },
        CheckStage::Done => (CheckStage::Done, CheckStep::Idle),
    }
}

/// A failed first run that reports the missing module leads to exactly one remediation.
/// If it succeeds, exactly one retest follows and its result, whatever it is, ends the
/// test; if it fails, the test ends there. Once ended, nothing more is requested.
pub proof fn lemma_single_remediation(
    diagnostic: String,
    remediation: Result<(), String>,
    retest: TestOutcome,
    later: CheckEvent,
)
    requires
        contains(diagnostic@, missing_module_file()),
    ensures
        ({
            let (s1, a1) = check_next(
                CheckStage::Testing,
                CheckEvent::Tested(TestOutcome::Failed { diagnostic }),
            );
            let (s2, a2) = check_next(s1, CheckEvent::Remediated(remediation));
            let (s3, a3) = check_next(s2, CheckEvent::Tested(retest));
            &&& a1 == CheckStep::Remediate
            &&& remediation is Ok ==> a2 == CheckStep::RunTest && a3 is Finish && s3
                == CheckStage::Done
            &&& remediation is Err ==> a2 is Finish && s2 == CheckStage::Done
            &&& check_next(CheckStage::Done, later) == (CheckStage::Done, CheckStep::Idle)
        }),
{
}

} // verus!
