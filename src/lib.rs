//! Synthesises mock JSON responses for arbitrary HTTP requests and keeps the
//! response shape seen for each (path, method) pair, so that later calls to
//! the same endpoint answer with structurally consistent data.
//!
//! The library holds the decisions: sanitising generated text, building the
//! prompt, the refresh authorisation rule and the per-request flow from cache
//! lookup to persistence. Storage, the model call and HTTP are driven from
//! outside through [`flow::Exchange`].

pub mod text;
pub mod sanitize;
pub mod prompt;
pub mod auth;
pub mod flow;
pub mod cache;
pub mod config;
pub mod page;
