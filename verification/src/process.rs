//! The process runner's judgement: what a run of the external tool amounts to.
//!
//! Starting the tool and collecting its streams is the caller's work. The
//! caller reports what it observed as a `ToolRun`, and `classify` says whether
//! that is an outcome or a failure, and which.

use vstd::prelude::*;
use crate::error::{ErrorModel, MediaError};

verus! {

/// What came of an attempt to run the external tool.
#[derive(Clone, Debug, PartialEq, Eq)]
pub enum ToolRun {
    /// The executable could not be located or started.
    NotFound,
    /// A pipe or stream failed before the tool's exit could be observed.
    Broken,
    /// The tool ran to its end. `code` is `None` where a signal ended it.
    Exited { code: Option<i32>, stdout: Vec<u8>, stderr: String },
}

/// The outcome of a successful run.
#[derive(Clone, Debug, PartialEq, Eq)]
pub struct ProcessOutcome {
    pub success: bool,
    pub stdout: Vec<u8>,
    pub stderr: String,
}

/// An outcome as plain values.
pub struct OutcomeModel {
    pub success: bool,
    pub stdout: Seq<u8>,
    pub stderr: Seq<char>,
}

impl View for ProcessOutcome {
    type V = OutcomeModel;

    open spec fn view(&self) -> OutcomeModel {
        OutcomeModel { success: self.success, stdout: self.stdout@, stderr: self.stderr@ }
    }
}

/// A run as plain values.
pub enum RunModel {
    NotFound,
    Broken,
    Exited { code: Option<i32>, stdout: Seq<u8>, stderr: Seq<char> },
}

impl View for ToolRun {
    type V = RunModel;

    open spec fn view(&self) -> RunModel {
        match *self {
            ToolRun::NotFound => RunModel::NotFound,
            ToolRun::Broken => RunModel::Broken,
            ToolRun::Exited { code, stdout, stderr } => RunModel::Exited {
                code,
                stdout: stdout@,
                stderr: stderr@,
            },
        }
    }
}

/// What a run amounts to: exit code 0 is success, with both streams kept;
/// every other end of the tool is `ToolExecutionFailed` with the code and all
/// of the standard error text.
pub open spec fn classified(run: RunModel) -> Result<OutcomeModel, ErrorModel> {
    match run {
        RunModel::NotFound => Err(ErrorModel::ToolNotFound),
        RunModel::Broken => Err(ErrorModel::IOFailure),
        RunModel::Exited { code, stdout, stderr } => if code == Some(0i32) {
            Ok(OutcomeModel { success: true, stdout, stderr })
        } else {
            Err(ErrorModel::ToolExecutionFailed { exit_code: code, stderr })
        },
    }
}

/// Whether a result is the expected one, as plain values.
pub open spec fn outcome_is(
    result: Result<ProcessOutcome, MediaError>,
    expected: Result<OutcomeModel, ErrorModel>,
) -> bool {
    match expected {
        Ok(model) => result matches Ok(outcome) && outcome@ == model,
        Err(error) => result matches Err(e) && e@ == error,
    }
}

/// Classifies a run of the external tool.
pub fn classify(run: ToolRun) -> (result: Result<ProcessOutcome, MediaError>)
    ensures
        outcome_is(result, classified(run@)),
{
    match run {
        ToolRun::NotFound => Err(MediaError::ToolNotFound),
        ToolRun::Broken => Err(MediaError::IOFailure),
        ToolRun::Exited { code, stdout, stderr } => {
            let clean = match code {
                Some(c) => c == 0,
                None => false,
            };
            if clean {
                Ok(ProcessOutcome { success: true, stdout, stderr })
            } else {
                Err(MediaError::ToolExecutionFailed { exit_code: code, stderr })
            }
        },
    }
}

/// The standard error text of a failed run is never lost: it is the text of
/// the error, whole.
pub proof fn law_stderr_kept(code: Option<i32>, stdout: Seq<u8>, stderr: Seq<char>)
    requires
        code != Some(0i32),
    ensures
        classified(RunModel::Exited { code, stdout, stderr }) == Err::<OutcomeModel, ErrorModel>(
            ErrorModel::ToolExecutionFailed { exit_code: code, stderr },
        ),
{
}

} // verus!
