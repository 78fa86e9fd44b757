//! The core of a small user-creation service: the shape check on a JSON
//! payload and the replies that the service's two endpoints give.

pub mod json;
pub mod payload;
pub mod handlers;
