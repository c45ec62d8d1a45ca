//! Errors of the workflow layer.
use crate::hal::error::{hal_error_message, HalError};
use crate::text::push_str;
use vstd::prelude::*;

verus! {

/// Why a workflow operation was refused or failed.
#[derive(Debug, Clone)]
pub enum WorkflowError {
    /// Execute mode without dry run needs an armed configuration.
    ExecuteRequiresArmed,
    /// The armed entry point was called without execute mode, or in a dry run.
    NotArmedForExecute,
    /// A destructive install was asked for without confirmation.
    InstallNotConfirmed,
    /// A HAL operation failed.
    Hal(HalError),
    /// A stage failed; the stage's name and its message.
    Stage { stage: String, message: String },
    /// The state store failed.
    Store(String),
}

impl WorkflowError {
    pub open spec fn message_spec(self) -> Seq<char> {
        match self {
            WorkflowError::ExecuteRequiresArmed => "execute-mode requires an ArmedConfig; use run_pipeline_execute"@,
            WorkflowError::NotArmedForExecute => "run_pipeline_execute requires execute=true and dry_run=false"@,
            WorkflowError::InstallNotConfirmed => "refusing to run destructive install without confirmation"@,
            WorkflowError::Hal(e) => hal_error_message(e),
            WorkflowError::Stage { stage, message } => "Stage "@ + stage@ + " failed: "@ + message@,
            WorkflowError::Store(m) => "State store error: "@ + m@,
        }
    }

    /// The error as a human-readable message.
    pub fn message(&self) -> (r: String)
        ensures
            r@ == self.message_spec(),
    {
        match self {
            WorkflowError::ExecuteRequiresArmed => String::from_str(
                "execute-mode requires an ArmedConfig; use run_pipeline_execute",
            ),
            WorkflowError::NotArmedForExecute => String::from_str(
                "run_pipeline_execute requires execute=true and dry_run=false",
            ),
            WorkflowError::InstallNotConfirmed => String::from_str(
                "refusing to run destructive install without confirmation",
            ),
            WorkflowError::Hal(e) => e.message(),
            WorkflowError::Stage { stage, message } => {
                let mut s = String::from_str("Stage ");
                push_str(&mut s, stage.as_str());
                push_str(&mut s, " failed: ");
                push_str(&mut s, message.as_str());
                s
            },
            WorkflowError::Store(m) => {
                let mut s = String::from_str("State store error: ");
                push_str(&mut s, m.as_str());
                s
            },
        }
    }
}

} // verus!
