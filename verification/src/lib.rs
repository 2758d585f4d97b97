//! Core logic of a "pretend game" runner and its supervising host.
//!
//! The runner presents a native window and a tray presence so that an
//! external process detector observes a plausible running title.  This
//! crate holds the verified core: the configuration resolver, the timed
//! display formatting, the window/tray visibility state machine, the icon
//! pixel conversion, and the host's provisioning and spawn planning.  The
//! platform glue (window system, HTTP, filesystem, process control) lives
//! outside and drives these functions.

pub mod config;
pub mod controller;
pub mod icon;
pub mod supervisor;
pub mod timer;
pub mod window;
