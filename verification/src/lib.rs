//! A small service skeleton: typed configuration, a unified error type,
//! the choice of a logging filter, and an application shell.

pub mod app;
pub mod config;
pub mod environment;
pub mod error;
pub mod layered;
pub mod telemetry;
pub mod utils;

pub use error::{AppError, Result};
