//! A small web backend's core: the error taxonomy with its mapping to HTTP
//! responses, the user registration workflow, and the configuration values
//! around them.

pub mod app;
pub mod config;
pub mod controllers;
pub mod error;
pub mod model;
pub mod models;
pub mod text;
pub mod tracing;
