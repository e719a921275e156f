//! Verified core of the Daft launcher: configuration processing, the mapping
//! onto Ray's cluster schema, and the decisions taken around the cloud calls.

pub mod aws;
pub mod cli;
pub mod config;
pub mod launcher;
pub mod pattern;
pub mod processable;
pub mod processable_option;
pub mod ray;
pub mod text;
pub mod utils;
pub mod versions;
