//! Core of a terminal dashboard that tracks a task-execution engine: the
//! state of running, queued and completed tasks and the health of their
//! execution backends.
//!
//! Given the mutable state tree and a stream of heterogeneous events —
//! keyboard input, resize, timed ticks, monitor updates — this library
//! computes deterministically what to draw and how input moves the state and
//! the views. Updates apply one at a time, in arrival order, each fully
//! visible before the next; while paused, they are drained but discarded.
//!
//! The terminal itself, the widget drawing and the simulated monitors live
//! outside, in the application around the library: they poll and paint, the
//! library decides.

pub mod app;
pub mod app_state;
pub mod backend;
pub mod event;
pub mod ext;
pub mod render_model;
pub mod resource;
pub mod task;
pub mod task_list;
pub mod ui;
pub mod update;
