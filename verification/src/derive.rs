//! The rules of the derive and export macros, on a model of the parsed
//! Rust items: which attributes an item carries, and which items and
//! signatures are accepted.

pub mod error;
pub mod attrs;
pub mod parsing;
pub mod input;
pub mod export;
pub mod definition;
pub mod types;
pub mod layout;
