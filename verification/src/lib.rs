//! Quote, pricing, authentication and compliance rules of an equipment-rental
//! back office, with their contracts proved by Verus.
//!
//! The storage layer (SQLite), the desktop shell and all other I/O live outside
//! this library; the functions here take and return plain values.
pub mod text;

pub mod rate_matrix;
pub mod codec;
pub mod auth;
pub mod compliance;
pub mod quotes;
pub mod ipc;
pub mod db;
pub mod assets;
pub mod document;
pub mod seed;
pub mod session;
