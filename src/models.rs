//! The models of the application that are persisted in the database.
pub mod password;
pub mod user;
