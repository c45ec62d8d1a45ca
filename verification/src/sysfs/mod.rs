//! Block-device helpers built on what sysfs reports.
pub mod block;
