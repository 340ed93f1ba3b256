//! Zipping two asynchronous sources by their latest values.
//!
//! The adapter keeps, for each source, the most recent value it produced and
//! whether that value has already been part of an emitted pair. The decisions
//! of a poll are made here; the caller queries the sources when asked to and
//! hands back what they yielded.

pub mod laws;
pub mod model;
pub mod poll;
pub mod zip;

pub use model::{SideModel, ZipModel};
pub use poll::{Action, Outcome};
pub use zip::{new, ZipLatest};
