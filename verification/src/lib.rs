//! Verified core of a template test harness.
//!
//! The harness validates a catalog of example project templates: each selected
//! example is instantiated into a fresh directory and the documented setup
//! instructions are executed as shell commands, with one result recorded per
//! example.  A second mode repeatedly adds freshly named components to a
//! composable application.  This crate holds the decision logic of that
//! harness: name and path derivation, instruction-line classification, the
//! per-example execution state machine, result aggregation, and the exit-code
//! rule.  The surrounding binary performs the file system, process and
//! terminal work and feeds the outcomes back in as events.

pub mod appmode;
pub mod filter;
pub mod instructions;
pub mod names;
pub mod report;
pub mod run;
