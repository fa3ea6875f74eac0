//! Errors, and how each one is answered over HTTP.

pub mod error;
pub mod kinds;
pub mod response;

pub use self::error::{Cause, CauseView, Classified, Error, ErrorView, Report, ReportView};
pub use self::kinds::{AuthError, ModelError, ModelErrorView};
pub use self::response::ErrorResponse;
