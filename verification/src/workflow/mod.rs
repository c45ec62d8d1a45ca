//! Installation workflow: the staged install plan and its configuration, the
//! preflight rules and the resumable stage runner.
pub mod error;
pub mod pipeline;
pub mod executor;
pub mod os_install;
pub mod preflight;
pub mod stage_runner;

use crate::hal::error::HalError;
use crate::hal::ops::SystemHal;
use vstd::prelude::*;

verus! {

/// A minimal workflow runner interface.
pub trait Workflow: Send + Sync {
    fn run(&self) -> Result<(), HalError>;
}

/// A no-op workflow used for compile-time wiring.
#[derive(Debug)]
pub struct NoopWorkflow<H: SystemHal> {
    pub hal: H,
}

impl<H: SystemHal> NoopWorkflow<H> {
    pub fn new(hal: H) -> (r: Self)
        ensures
            r.hal == hal,
    {
        Self { hal }
    }
}

impl<H: SystemHal + Send + Sync> Workflow for NoopWorkflow<H> {
    /// Does nothing and succeeds.
    fn run(&self) -> (r: Result<(), HalError>)
        ensures
            r is Ok,
    {
        Ok(())
    }
}

} // verus!
