//! The application's settings.

pub mod app;
pub mod db;
pub mod telemetry;
