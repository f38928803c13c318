//! Repair of malformed CSV text, line by line.
//!
//! The crate holds the decision logic of a CSV cleaning tool. Reading and
//! writing files is left to the caller.
//!
//! - [`config`]: the settings of a run.
//! - [`cleaner`]: the scanner that rewrites one line.
//! - [`validator`]: the check that every row has as many fields as the
//!   header.
//! - [`pipeline`]: the state machine for one file, which combines both and
//!   collects the problems that could not be repaired.
//! - [`report`]: those problems and their descriptions.
//! - [`run`]: what ends a run over a directory, and its closing summary.
//! - [`files`]: which files of a directory are cleaned.
//! - [`laws`]: what holds of the cleaner on every line and of the pipeline
//!   on every file.
//! - [`text`]: counting and writing characters.

pub mod cleaner;
pub mod config;
pub mod files;
pub mod laws;
pub mod pipeline;
pub mod report;
pub mod run;
pub mod text;
pub mod validator;
