//! Decision and text logic of a small supervisor that keeps an agent process running.
pub mod text;
pub mod version;
pub mod procfile;
pub mod config;
pub mod fetch;
pub mod supervisor;
