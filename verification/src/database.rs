//! The three tables as plain values, and the queries that the forum runs on
//! them.

pub mod error;
pub mod order;
pub mod store;
pub mod view;
