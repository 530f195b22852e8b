//! A safe instrumentation facade over a tracing backend that may or may not be
//! attached to the process.
//!
//! The backend is a table of entry points which a profiling collector wires up
//! when it attaches. Every operation of the facade resolves its entry point
//! afresh and decides what is to be sent to the backend: a call, or nothing at
//! all when the entry point is absent. The decisions are plain values, so that
//! the code which owns the foreign-function boundary only has to carry them
//! out and hand the backend's answers back.
pub mod backend;
pub mod bracket;
pub mod collection_control;
pub mod domain;
pub mod event;
pub mod jit;
pub mod region;
pub mod string;
pub mod task;
pub mod text;

pub use backend::{Call, Dispatch, Entry, Pending, Resolution, Table};
pub use bracket::Bracket;
pub use collection_control::{detach, pause, resume};
pub use domain::Domain;
pub use event::{Event, Fatal, StartedEvent};
pub use region::{MarkedRegion, Region};
pub use string::StringHandle;
pub use task::Task;
pub use text::{BackendString, NulError};
