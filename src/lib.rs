//! Short-link engine: allocation of unique short codes for long URLs and
//! resolution of codes back to their targets.
pub mod code;
pub mod store;
pub mod clock;
pub mod allocator;
pub mod resolver;
pub mod form;
pub mod response;
pub mod laws;
