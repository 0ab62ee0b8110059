//! A verified command bridge: a registry mapping command names to handlers,
//! dispatching invocations from an external caller to the matching handler
//! and returning a structured success or error response.

pub mod bridge;
pub mod laws;
pub mod response;
pub mod value;
