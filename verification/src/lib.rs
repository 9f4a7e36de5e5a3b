//! A personal time-tracking engine: tasks are started, stopped, switched,
//! renamed and deleted, and a day's work is summarised in a report.
//!
//! [`model`] says what entries, tasks and task collections are and what each
//! operation makes of a collection, over integers and sequences. The types
//! of [`entry`], [`task`] and [`task_manager`] are the values that run; each
//! of their functions is verified with Verus against its contract, which is
//! stated over the model. [`laws`] holds what is proved of every collection.

pub mod entry;
pub mod error;
pub mod laws;
pub mod model;
pub mod report;
pub mod task;
pub mod task_manager;
pub mod text;
pub mod time;

pub use crate::error::{TaskError, TaskResult};
pub use crate::task_manager::TaskManager;
