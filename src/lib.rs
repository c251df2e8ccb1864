//! A terminal task list: items with a lifecycle state, a filter over them,
//! a paginated viewport, a single-step delete undo, and a line-oriented file
//! format that round-trips the whole store.

pub mod codec;
pub mod header;
pub mod model;
pub mod navigation;
pub mod path;
pub mod session;
pub mod store;
pub mod text;
pub mod viewport;
