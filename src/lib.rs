//! Request validation, response composition and error mapping for a small
//! HTTP greeting service.

pub mod text;
pub mod json;
pub mod reply;
pub mod error;
pub mod handlers;
pub mod routes;
