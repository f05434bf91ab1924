//! Classification of what the spawned `ssh` process produced.
//!
//! The probe is strictly binary. A completed process classifies to success
//! only when it exited with status zero *and* printed something besides
//! whitespace: the remote command's output is the evidence that a session
//! actually ran. Every failure carries the most specific diagnostic
//! available, and the outward boundary flattens it to one line of text.

use vstd::prelude::*;
use vstd::string::StrSliceExecFns;
use vstd::string::StringExecFns;

use crate::request::TestConnectionResponse;
use crate::text::trim;
use crate::text::trim_spec;

verus! {

/// What one attempt to run the client produced, as the caller saw it.
#[derive(Debug, Clone, PartialEq, Eq)]
pub enum SpawnOutcome {
    /// The process started and ran to completion. `success` is whether it
    /// exited with status zero; `stdout` and `stderr` are its captured
    /// output streams, decoded to text.
    Completed { success: bool, stdout: String, stderr: String },
    /// The process could not be started at all; `error` is the operating
    /// system's description of why.
    SpawnFailed { error: String },
}

/// Why a probe failed.
#[derive(Debug, Clone, PartialEq, Eq)]
pub enum SshError {
    /// The client binary could not be spawned.
    Spawn { error: String },
    /// The client ran but the remote login or command failed.
    RemoteCommand { message: String },
    /// The client reported success yet printed nothing usable.
    EmptyOutput,
}

impl SshError {
    /// The single descriptive line that the outward boundary shows: the
    /// structured kind flattened, context first.
    pub open spec fn rendered(self) -> Seq<char> {
        match self {
            SshError::Spawn { error } => "failed to spawn ssh command: "@ + error@,
            SshError::RemoteCommand { message } => "ssh failed: "@ + message@,
            SshError::EmptyOutput => "ssh succeeded but stdout is empty"@,
        }
    }

    /// Renders the error, exactly as `rendered` says.
    pub fn describe(&self) -> (r: String)
        ensures
            r@ == self.rendered(),
    {
        match self {
            SshError::Spawn { error } => String::from_str("failed to spawn ssh command: ").concat(
                error.as_str(),
            ),
            SshError::RemoteCommand { message } => String::from_str("ssh failed: ").concat(
                message.as_str(),
            ),
            SshError::EmptyOutput => String::from_str("ssh succeeded but stdout is empty"),
        }
    }
}

/// The diagnostic chosen for a process that exited non-zero: the trimmed
/// standard error when it says anything, otherwise the trimmed standard
/// output (possibly empty, when neither says anything).
pub open spec fn remote_failure_message(stdout: Seq<char>, stderr: Seq<char>) -> Seq<char> {
    if trim_spec(stderr).len() > 0 {
        trim_spec(stderr)
    } else {
        trim_spec(stdout)
    }
}

/// Does the outcome count as a confirmed connection?
pub open spec fn is_success(outcome: SpawnOutcome) -> bool {
    &&& outcome matches SpawnOutcome::Completed { success, stdout, .. }
    &&& success
    &&& trim_spec(stdout@).len() > 0
}

/// The response owed for a successful outcome.
pub open spec fn success_of(outcome: SpawnOutcome, resp: TestConnectionResponse) -> bool {
    &&& resp.ok == true
    &&& outcome matches SpawnOutcome::Completed { stdout, .. } && resp.message@
        == "Connected. Hostname: "@ + trim_spec(stdout@)
}

/// The error owed for an unsuccessful outcome.
pub open spec fn error_of(outcome: SpawnOutcome, e: SshError) -> bool {
    match outcome {
        SpawnOutcome::SpawnFailed { error } => e matches SshError::Spawn { error: msg } && msg@
            == error@,
        SpawnOutcome::Completed { success, stdout, stderr } => {
            if !success {
                e matches SshError::RemoteCommand { message } && message@
                    == remote_failure_message(stdout@, stderr@)
            } else {
                e == SshError::EmptyOutput
            }
        },
    }
}

/// The one line owed for an unsuccessful outcome, flattened.
pub open spec fn flattened_error(outcome: SpawnOutcome) -> Seq<char> {
    match outcome {
        SpawnOutcome::SpawnFailed { error } => "failed to spawn ssh command: "@ + error@,
        SpawnOutcome::Completed { success, stdout, stderr } => {
            if !success {
                "ssh failed: "@ + remote_failure_message(stdout@, stderr@)
            } else {
                "ssh succeeded but stdout is empty"@
            }
        },
    }
}

/// Any error owed for an outcome flattens to the line owed for it.
pub proof fn lemma_error_of_rendered(outcome: SpawnOutcome, e: SshError)
    requires
        error_of(outcome, e),
    ensures
        e.rendered() == flattened_error(outcome),
{
}

/// Everything `classify_outcome` promises of its result, as one predicate.
pub open spec fn classification_post(
    outcome: SpawnOutcome,
    r: Result<TestConnectionResponse, SshError>,
) -> bool {
    &&& (r is Ok <==> is_success(outcome))
    &&& (r matches Ok(resp) ==> success_of(outcome, resp))
    &&& (r matches Err(e) ==> error_of(outcome, e))
}

/// Outcomes with the same observable content: same exit fate and the same
/// text on every stream.
pub open spec fn outcome_equiv(a: SpawnOutcome, b: SpawnOutcome) -> bool {
    match (a, b) {
        (
            SpawnOutcome::Completed { success: sa, stdout: oa, stderr: ea },
            SpawnOutcome::Completed { success: sb, stdout: ob, stderr: eb },
        ) => sa == sb && oa@ == ob@ && ea@ == eb@,
        (SpawnOutcome::SpawnFailed { error: ea }, SpawnOutcome::SpawnFailed { error: eb }) => ea@
            == eb@,
        _ => false,
    }
}

/// Errors of the same kind carrying the same text.
pub open spec fn error_equiv(x: SshError, y: SshError) -> bool {
    match (x, y) {
        (SshError::Spawn { error: a }, SshError::Spawn { error: b }) => a@ == b@,
        (SshError::RemoteCommand { message: a }, SshError::RemoteCommand { message: b }) => a@
            == b@,
        (SshError::EmptyOutput, SshError::EmptyOutput) => true,
        _ => false,
    }
}

/// Probes never interfere: the classification is a function of the probe's
/// own outcome alone, so outcomes with the same content always classify to
/// the same response, whatever ran concurrently beside them.
pub proof fn lemma_classification_deterministic(
    a: SpawnOutcome,
    b: SpawnOutcome,
    ra: Result<TestConnectionResponse, SshError>,
    rb: Result<TestConnectionResponse, SshError>,
)
    requires
        outcome_equiv(a, b),
        classification_post(a, ra),
        classification_post(b, rb),
    ensures
        ra is Ok <==> rb is Ok,
        ra matches Ok(x) ==> rb matches Ok(y) && x.ok == y.ok && x.message@ == y.message@,
        ra matches Err(x) ==> rb matches Err(y) && error_equiv(x, y),
{
}

/// Classifies one outcome: success exactly when the process exited zero
/// with non-whitespace output, and otherwise the most specific error.
pub fn classify_outcome(outcome: SpawnOutcome) -> (r: Result<TestConnectionResponse, SshError>)
    ensures
        classification_post(outcome, r),
{
    match outcome {
        SpawnOutcome::SpawnFailed { error } => Err(SshError::Spawn { error }),
        SpawnOutcome::Completed { success, stdout, stderr } => {
            if !success {
                let stderr_trimmed = trim(stderr.as_str());
                let message = if stderr_trimmed.as_str().is_empty() {
                    trim(stdout.as_str())
                } else {
                    stderr_trimmed
                };
                Err(SshError::RemoteCommand { message })
            } else {
                let hostname = trim(stdout.as_str());
                if hostname.as_str().is_empty() {
                    Err(SshError::EmptyOutput)
                } else {
                    Ok(
                        TestConnectionResponse {
                            ok: true,
                            message: String::from_str("Connected. Hostname: ").concat(
                                hostname.as_str(),
                            ),
                        },
                    )
                }
            }
        },
    }
}

/// The outward boundary: the same classification, with every failure
/// collapsed to its one descriptive line.
pub fn respond(outcome: SpawnOutcome) -> (r: Result<TestConnectionResponse, String>)
    ensures
        r is Ok <==> is_success(outcome),
        r matches Ok(resp) ==> success_of(outcome, resp),
        r matches Err(msg) ==> msg@ == flattened_error(outcome),
{
    match classify_outcome(outcome) {
        Ok(resp) => Ok(resp),
        Err(e) => {
            proof {
                lemma_error_of_rendered(outcome, e);
            }
            Err(e.describe())
        },
    }
}

} // verus!
