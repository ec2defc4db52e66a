//! The duration-resolution engine of a server that delays each response:
//! the operator's bounds, what a request asks for, the delay that is
//! resolved from both, and the reply that reports it.

pub mod config;
pub mod handlers;
pub mod ident;
pub mod logging;
pub mod text;
pub mod time;
