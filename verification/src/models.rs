//! Users, their credentials and the registration workflow.

pub mod password;
pub mod registration;
pub mod table;
pub mod timestamp;
pub mod users;
