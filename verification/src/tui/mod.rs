//! The Dojo installer UI: its step sequence, state machine and text.
pub mod partition;
pub mod steps;
pub mod types;
pub mod app;
pub mod flash_config;
pub mod input;
pub mod form_input;
pub mod widgets;
pub mod execution;
pub mod screen;
pub mod content;
pub mod handlers;
pub mod laws;

use crate::hal::error::HalError;
use crate::workflow::Workflow;
use vstd::prelude::*;

verus! {

/// Minimal TUI entrypoint interface.
pub trait Tui: Send + Sync {
    fn run(&mut self) -> Result<(), HalError>;
}

/// No-op TUI used for compile-time wiring: running it runs its workflow.
#[derive(Debug)]
pub struct NoopTui<W: Workflow> {
    pub workflow: W,
}

impl<W: Workflow> NoopTui<W> {
    pub fn new(workflow: W) -> (r: Self)
        ensures
            r.workflow == workflow,
    {
        Self { workflow }
    }
}

impl<W: Workflow> Tui for NoopTui<W> {
    fn run(&mut self) -> Result<(), HalError> {
        self.workflow.run()
    }
}

} // verus!
