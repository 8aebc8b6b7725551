//! Verified core of a WeChat mini-program login and profile server.
pub mod config;
pub mod error;
pub mod middleware;
pub mod model;
pub mod repository;
pub mod service;
pub mod text;
pub mod utils;

pub use config::AppConfig;
pub use error::{AppError, AppResult};
