//! Turning a failed request into a reply: the error body, the capability
//! that every domain error offers, and the normalising step itself.

pub mod dto_error;
pub mod response;
