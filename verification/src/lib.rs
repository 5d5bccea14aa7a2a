//! The request-handling core of an HTTP service: error normalisation,
//! start-up options, shared state, dependency health and the admission
//! pipeline that every request passes before it reaches a handler.

pub mod app_state;
pub mod buffer;
pub mod cors;
pub mod errors;
pub mod health;
pub mod init;
pub mod limit;
pub mod pipeline;
pub mod shared;
pub mod status;
pub mod text;
