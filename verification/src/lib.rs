//! Verified core of the link-shortening and file-hosting service: name rules,
//! credential handling, record planning and the decisions taken around requests.

pub mod config;
pub mod text;
pub mod json;
pub mod errors;
pub mod random;
pub mod names;
pub mod digest;
pub mod auth;
pub mod types;
pub mod clock;
pub mod urls;
pub mod extractors;
pub mod records;
pub mod uploads;
