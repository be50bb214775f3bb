//! In-place self-update orchestration for a suite of cooperating desktop
//! processes: the decisions of quiescing the suite, staging the installation
//! by directory renames, relaunching, and the request/response protocol used
//! to talk to the running service.
//!
//! The library does no input or output: it says which file-system, process
//! and pipe operation comes next, and the caller performs it and reports its
//! outcome. One updater works on an installation at a time; the library takes
//! that for granted, and it is for the caller to see to it.

pub mod error;
pub mod text;
pub mod paths;
pub mod comms;
pub mod exchange;
pub mod retry;
pub mod staging;
pub mod coordinator;
pub mod relaunch;
pub mod updater;
pub mod version;
pub mod files;
pub mod download;
pub mod regedit;
