//! The core of a small discussion forum: accounts, topics and posts, the rules
//! that registration and login forms are held to, and the decisions that the
//! request handlers take.
//!
//! The three tables are held as plain values in a `Database`, and everything
//! that the forum does is a function on them: a registration adds a row, a
//! login reads one, a listing orders and cuts the rows that it shows. A server
//! that keeps the tables elsewhere loads them with `Database::from_tables`,
//! hands them to a handler together with the session and the submitted form,
//! and stores the rows that the handler added. What a handler answers is a
//! value, too: the page to render and the data to render it with, or the
//! place to redirect to.
//!
//! Passwords are hashed and compared by the bcrypt crate, and the time of a
//! new topic or post is read from the clock by chrono. What is taken on trust
//! of them, and of the character tables of the standard library, is said
//! where they are called: in `utils::hashing`, `utils::clock` and
//! `utils::text`.

pub mod controllers;
pub mod database;
pub mod models;
pub mod utils;
