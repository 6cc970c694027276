//! Authentication and session-authorization core of a small multi-user
//! to-do list: salted password hashing, tamper-evident session cookies,
//! signup and login decisions, and per-request ownership checks on tasks.
//!
//! The surrounding HTTP layer and the user and task stores are
//! collaborators: they hand plain values in (form fields, a looked-up
//! user, an insert verdict) and take plain values back (a flash, a
//! redirect, a cookie value).

pub mod auth;
pub mod authz;
pub mod decimal;
pub mod errors;
pub mod flash;
pub mod hasher;
pub mod session;
pub mod tasks;
