//! Supervision of long-running worker processes: cleaning, dataset
//! generation, training, export and inference jobs that report their
//! progress line by line on standard output.
//!
//! The library holds the decisions. It decodes the lines of a worker into
//! events, follows the life of a job as a state machine, classifies how the
//! job ended, names and lists the versions of its output, and works out which
//! directory the model daemon serves and how to move it to another. Whoever
//! uses the library launches the processes, reads the files and runs the
//! commands, and hands in what was found.
//!
//! Every function states what it returns over the characters of its texts,
//! and Verus proves the statement. What is taken on trust is the standard
//! library's `String::push`, the reading of JSON by `serde_json`, and the
//! writing of times by `chrono`; each such item says so.

pub mod clock;
pub mod codec;
pub mod config;
pub mod drain;
pub mod executor;
pub mod json;
pub mod launcher;
pub mod models;
pub mod order;
pub mod preview;
pub mod reconciler;
pub mod registry;
pub mod storage;
pub mod supervisor;
pub mod text;
pub mod training;
pub mod verification;
pub mod versioning;
