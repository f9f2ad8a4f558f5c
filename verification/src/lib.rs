//! A shared grid of boolean "checkbox" cells, toggled and viewed by many
//! concurrent callers.
//!
//! The heart of the crate is [`grid::Grid`], a fixed-length array of
//! booleans with exact contracts for point reads, point toggles and full
//! snapshots, and [`store::CellStore`], which shares one grid between
//! concurrent callers behind a single coarse reader-writer lock so that
//! every operation is atomic, no update is lost, and a snapshot is one
//! consistent stop-the-world view. [`handlers`] maps raw toggle and view
//! requests onto the store, [`parse`] validates raw decimal indices, and
//! [`counter`] is the per-client state of the periodic counter stream.

pub mod counter;
pub mod grid;
pub mod handlers;
pub mod parse;
pub mod store;
