//! What the HTTP endpoints decide, apart from the I/O around them.

pub mod auth;
pub mod export_handler;
pub mod github;
pub mod patient_handler;
pub mod treatment_handler;
