//! The rules of a small blog service: a fixed catalog of posts that is checked
//! before it is handed out, and a prediction model that is loaded, replaced
//! and asked for its state.
//!
//! Numbers with a fraction are carried as IEEE 754 binary64 bit patterns in a
//! `u64`. The library decides which numbers a reply shows and in which style;
//! the caller evaluates and prints them.

pub mod graphql;
pub mod model;
pub mod posts;
pub mod reply;
pub mod validation;
