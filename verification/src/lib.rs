//! A minimal task-tracking core: a shared task collection behind a
//! reader/writer lock, a coalescing change counter that wakes streaming
//! subscribers, and the three operations built on top of them — create a
//! task, list all tasks, and follow a live stream of snapshots.

pub mod ident;
pub mod laws;
pub mod service;
pub mod store;
pub mod task;
