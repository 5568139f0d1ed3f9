//! A cancellable background task protocol for event loops that must never block.
//!
//! A payload runs on a worker and reports through a shared [`TaskSlot`]; the
//! event loop holds a [`TaskController`], triggers the work once, polls the slot
//! without waiting, and may request cooperative cancellation. The thread and
//! lock plumbing lives outside this crate; every decision of the protocol is
//! made here and verified.
pub mod board;
pub mod controller;
pub mod progress;
pub mod slot;
pub mod trace;

pub use board::{EntryView, TaskBoard};
pub use controller::{ControllerView, TaskController, TaskState};
pub use progress::{conclude, Progress};
pub use slot::{SlotView, TaskSlot};
