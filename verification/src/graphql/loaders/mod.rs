//! Batch loaders.

pub mod user_loader;
