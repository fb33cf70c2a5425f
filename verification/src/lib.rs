//! In-memory, read-optimized replica of a small set of relational tables,
//! kept up to date from a row-level change-data-capture stream and served
//! to request-handling workers through a double-buffered store with an
//! atomic generation swap.

pub mod aci;
pub mod config;
pub mod convert;
pub mod engine;
pub mod handlers;
pub mod helpers;
pub mod keymap;
pub mod laws;
pub mod objects;
pub mod request;
pub mod routing;
pub mod slave;
pub mod storage;
pub mod store;
pub mod updater;
pub mod worker;
