//! Incremental synchronisation of a remote reading list into a local store.
//!
//! The library holds the decisions of a synchronisation run: which request to
//! send, how a response is classified, how a page is merged into the store,
//! when the cursor is advanced and when a checkpoint is due. Network and file
//! access are left to the caller.

pub mod minmax;
pub mod guard;
pub mod json;
pub mod decimal;
pub mod config;
pub mod store;
pub mod merge;
pub mod page;
pub mod clock;
pub mod sync;
pub mod text;
pub mod plan;
pub mod render;
