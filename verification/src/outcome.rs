//! Error kinds and the result of one external command invocation.

use vstd::prelude::*;

verus! {

/// An error surfaced by the library to its callers.
#[derive(Debug, Clone)]
pub enum BrewError {
    /// The external tool ran but returned non-success, or could not be
    /// spawned; carries the captured diagnostic text.
    CommandFailed(String),
    /// Captured output did not match the expected top-level structured shape.
    ParseError(String),
    /// The external tool could not be located at startup.
    NotInstalled,
}

impl BrewError {
    /// A human-readable description of the error.
    pub fn message(&self) -> (r: String)
        ensures
            r@ == spec_error_message(*self),
    {
        match self {
            BrewError::CommandFailed(msg) => {
                let mut s = "Brew command failed: ".to_owned();
                s.append(msg.as_str());
                s
            },
            BrewError::ParseError(msg) => {
                let mut s = "Failed to parse brew output: ".to_owned();
                s.append(msg.as_str());
                s
            },
            BrewError::NotInstalled => "Homebrew is not installed or not in PATH".to_owned(),
        }
    }
}

/// The text of each error's description.
pub open spec fn spec_error_message(e: BrewError) -> Seq<char> {
    match e {
        BrewError::CommandFailed(msg) => "Brew command failed: "@ + msg@,
        BrewError::ParseError(msg) => "Failed to parse brew output: "@ + msg@,
        BrewError::NotInstalled => "Homebrew is not installed or not in PATH"@,
    }
}

/// The tagged result of one external command: either the captured standard
/// output on success, or a failure detail. Never partially filled.
#[derive(Debug, Clone)]
pub enum OperationOutcome {
    Success(String),
    Failure(String),
}

impl OperationOutcome {
    /// True exactly on the `Success` variant.
    pub fn is_success(&self) -> (r: bool)
        ensures
            r == (self is Success),
    {
        match self {
            OperationOutcome::Success(_) => true,
            OperationOutcome::Failure(_) => false,
        }
    }
}

/// Classifies one finished process invocation: success exactly when the exit
/// status was a success, and on failure the detail is the captured standard
/// error, or the standard output if the error stream was empty.
pub fn outcome_of_run(status_success: bool, stdout: String, stderr: String) -> (r:
    OperationOutcome)
    ensures
        status_success ==> r == OperationOutcome::Success(stdout),
        !status_success && stderr@.len() > 0 ==> r == OperationOutcome::Failure(stderr),
        !status_success && stderr@.len() == 0 ==> r == OperationOutcome::Failure(stdout),
{
    if status_success {
        OperationOutcome::Success(stdout)
    } else if stderr.as_str().unicode_len() > 0 {
        OperationOutcome::Failure(stderr)
    } else {
        OperationOutcome::Failure(stdout)
    }
}

/// Classifies a finished self-update invocation. The tool writes progress to
/// its error stream, so success hands back both streams; failure carries both,
/// joined by a line break, as the diagnostic.
pub fn update_report(status_success: bool, stdout: String, stderr: String) -> (r: Result<
    (String, String),
    BrewError,
>)
    ensures
        status_success ==> r == Result::<(String, String), BrewError>::Ok((stdout, stderr)),
        !status_success ==> (r matches Err(e) && e matches BrewError::CommandFailed(m) && m@
            == stdout@ + "\n"@ + stderr@),
{
    if status_success {
        Ok((stdout, stderr))
    } else {
        let mut joined = stdout;
        joined.append("\n");
        joined.append(stderr.as_str());
        Err(BrewError::CommandFailed(joined))
    }
}

} // verus!
