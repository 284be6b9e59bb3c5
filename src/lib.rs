//! Running commands directly, as another local user, or on a remote host,
//! and chaining them into pipelines.
//!
//! The library decides; the caller spawns and waits. [`context`] turns a
//! command and its execution context into the program and arguments to
//! spawn, [`pipeline`] drives a pipeline from one process event to the next,
//! [`outcome`] classifies how the last process ended, and [`laws`] proves
//! what whole runs do.

pub mod context;
pub mod error;
pub mod exec;
pub mod laws;
pub mod outcome;
pub mod pipeline;

pub use context::{resolve, Context, Invocation};
pub use error::ExecError;
pub use exec::Exec;
pub use outcome::{check_output, collect_output, ExitReport};
pub use pipeline::{Action, Event, Phase, Pipeline, Stage};
