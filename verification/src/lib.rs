//! A response filter that adds a load feedback header, and the background
//! refresh cycle that keeps the value of that header in a cache.
pub mod cache;
pub mod config;
pub mod coordinator;
pub mod json;
pub mod probe;
pub mod request;
pub mod resolver;
pub mod text;
