//! Tray menu bookkeeping: the mapping from native menu handles to the identifiers
//! that callers gave their items, and the handles through which callers query and
//! update a tray from any thread.
pub mod error;
pub mod menu;
pub mod registry;
pub mod tray;
pub mod cli;
pub mod notification;
