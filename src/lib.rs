//! A small static-site server core: resolves request paths to files under a
//! pages root or a static root, keeps every read inside its root, picks the
//! content type, and decides the response, including the fallback pages.

pub mod classify;
pub mod cli;
pub mod config;
pub mod guard;
pub mod paths;
pub mod resolve;
pub mod serve;

pub use cli::{Cli, Commands};
pub use config::Config;
pub use serve::AppState;
