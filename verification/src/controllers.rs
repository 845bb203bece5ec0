//! What the forum answers to each request.
//!
//! A handler takes the tables, the session and the submitted form, and
//! returns the answer as a value: which page to render with which data, or
//! where to redirect. Rendering and sending are left to the caller.

pub mod index;
pub mod register;
pub mod reply;
pub mod users;
