//! In-memory state behind a multi-tab embedded-browser host: per-tab
//! navigation history with a cursor, and a pool of on-screen instances of
//! which a `show` leaves exactly one visible.

pub mod clock;
pub mod commands;
pub mod error;
pub mod geometry;
pub mod history;
pub mod manager;
pub mod pool;
pub mod table;
