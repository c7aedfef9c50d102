//! Generation of videos from a topic or an outline: the decisions of the services that do it.
//!
//! The library performs nothing itself. It says what is to be asked, written or stored next, and
//! what follows from what that came to.
pub mod api;
pub mod config;
pub mod db;
pub mod domain;
pub mod error;
pub mod hashing;
pub mod ids;
pub mod logging;
pub mod media;
pub mod pipeline;
pub mod providers;
pub mod render;
pub mod storage;
pub mod text;
pub mod workflow;

pub use config::Settings;
pub use db::Repository;
pub use error::{AppError, AppResult};
