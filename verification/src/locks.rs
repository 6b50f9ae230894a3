//! Models and errors of the distributed lock service.

pub mod error;
pub mod models;
