//! Verified core of the MASH installer: the hardware-abstraction rules, the
//! `/proc` and sysfs parsers, the Dojo installer state machine and the
//! workflow planning logic.
pub mod text;
pub mod path;
pub mod os_release;
pub mod procfs;
pub mod hal;
pub mod tui;
pub mod sysfs;
pub mod workflow;
