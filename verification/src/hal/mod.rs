//! Hardware abstraction layer: the operations that touch the machine, the
//! safety rule they follow, and a recording fake for tests.
pub mod error;
pub mod options;
pub mod ops;
pub mod fake;
pub mod host_log;
pub mod linux;
