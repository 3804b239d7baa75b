//! Configuration resolution and bundling pipeline for a desktop-application
//! build tool: a layered, schema-validated configuration store, validated
//! build settings, and deterministic per-format bundler planning.

pub mod config;
pub mod dmg;
pub mod fs_api;
pub mod json;
pub mod package_type;
pub mod pipeline;
pub mod settings;
pub mod settings_file;
pub mod text;

pub use json::Json;

