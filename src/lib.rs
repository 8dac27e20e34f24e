//! Orchestration core of a converter that drives a `decrypt(source, dest)`
//! export of a script injected into a running player process.
//!
//! The library decides; the caller performs the effects. It routes source
//! extensions to output formats, selects the target process, names the
//! output and temporary files, and steps each conversion through its
//! check / remote call / publish stages.
pub mod text;
pub mod routing;
pub mod error;
pub mod locator;
pub mod naming;
pub mod paths;
pub mod job;
pub mod batch;
pub mod session;
pub mod runner;
