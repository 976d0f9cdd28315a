//! Venja's backend library: configuration, the health report, and the rules
//! around the pooled database connections that each request uses.
pub mod config;
pub mod graphql;
pub mod health;
pub mod middleware;
pub mod models;
pub mod repository;
pub mod server;
