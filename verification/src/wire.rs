//! What travels on the link.

pub mod base64;
pub mod error;
pub mod frame;
pub mod messages;
pub mod radar;
pub mod utils;
