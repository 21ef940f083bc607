//! Shared utilities: the bounded resource cache.

pub mod resource_loader;

pub use resource_loader::ResourceLoader;
