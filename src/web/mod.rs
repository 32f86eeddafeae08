//! The pure parts of the HTTP surface: credentials and permissions, configuration records,
//! and the shapes of responses. Serving requests is left to the application.
pub mod api;
pub mod auth;
pub mod config;
