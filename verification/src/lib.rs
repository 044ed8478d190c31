//! Text-to-speech publishing service: configuration, conversion decisions,
//! progress tracking and storage layout, with their contracts.

pub mod text;
pub mod paths;
pub mod config;
pub mod progress;
pub mod store;
pub mod synthesis;
pub mod converter;
pub mod server;
pub mod worker;
