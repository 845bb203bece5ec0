//! Registration and login under `/users`.

pub mod login;
pub mod register;
