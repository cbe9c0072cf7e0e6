//! Core logic of a small ticket tracker: signed-in user contexts, the
//! authentication token format, the ticket board, login and registration
//! decisions, error classification and configuration handling.

pub mod ctx;
pub mod error;
pub mod text;
pub mod token;
pub mod models;
pub mod auth;
pub mod board;
pub mod configuration;
pub mod templates;

pub use error::{Error, Result};
