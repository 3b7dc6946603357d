//! Supervision logic for a bitcoin node daemon running inside an appliance:
//! the launch plan derived from the settings document, the mapping from the
//! daemon's termination to an exit code, and the status document that the
//! telemetry sidecar republishes on every poll.
//!
//! Nothing here touches a file, a process or the clock. The surrounding
//! program reads the settings, runs the daemon and its query tool, and hands
//! plain values to these functions; what they return tells it what to do.
//!
//! - [`launch`]: the daemon's arguments and the one-shot reindex markers.
//! - [`supervisor`]: interrupts and the supervisor's exit code.
//! - [`sidecar`]: one telemetry cycle, step by step.
//! - [`telemetry`]: the entries that each answer of the daemon contributes.
//! - [`document`]: what a published document holds under each label.
//! - [`stats`], [`chain`]: the document and the daemon's answers as data.
//! - [`fixed`], [`text`]: numbers as text.
//! - [`outside`]: the calls into other crates, with the contracts that are
//!   taken on trust.

pub mod chain;
pub mod document;
pub mod fixed;
pub mod launch;
pub mod outside;
pub mod sidecar;
pub mod stats;
pub mod supervisor;
pub mod telemetry;
pub mod text;
