//! The generation pipeline.
pub mod assets;
pub mod keys;
pub mod scenes;
pub mod service;
pub mod stages;
pub mod task;
pub mod timeline;
pub mod validation;
