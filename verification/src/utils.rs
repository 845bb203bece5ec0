//! Building blocks shared by the rest of the crate.

pub mod clock;
pub mod errors;
pub mod hashing;
pub mod id;
pub mod text;
