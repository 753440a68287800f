//! Request handling, event recording and abuse reporting logic of a small
//! HTTP honeypot, verified with Verus.

pub mod configuration;
pub mod text;
pub mod pattern;
pub mod reporter;
pub mod models;
pub mod utils;
pub mod handler;
pub mod handlers;
