//! A key-value store whose entries expire.
//!
//! [`store::Store`] maps string keys to string values, each with a deadline on the wall clock.
//! An entry past its deadline is never read back; it stays in memory until it is deleted,
//! overwritten or swept away. The store does no locking of its own: whoever shares one between
//! tasks puts it behind a single lock, so that its operations happen one after another.

pub mod clock;
pub mod laws;
pub mod model;
pub mod service;
pub mod store;
mod table;
