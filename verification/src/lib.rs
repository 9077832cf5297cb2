//! Authentication and request authorization for the treatment manager:
//! password hashing, signed session tokens, the request guard and the login
//! flow, together with the text helpers of the document export.

pub mod auth;
pub mod errors;
pub mod handlers;
pub mod middleware;
pub mod models;
pub mod password;
pub mod reply;
pub mod text;
pub mod trusted;
