//! The rows of the three tables, and what can be done with them.

pub mod post;
pub mod session;
pub mod topic;
pub mod user;
