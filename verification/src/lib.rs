//! Core of an interactive live-search tool: as a pattern is edited, a worker
//! searches a set of root paths and streams matching lines to one consumer.
//! This crate holds the verified logic: the search-round state machine, the
//! per-file line scan, and the merged event queue; terminal handling and the
//! directory walk itself live with the binary around it.

pub mod state;
pub mod proto;
pub mod matcher;
pub mod scan;
pub mod events;
pub mod coordinator;
