//! Verified core of the FileHub CAD-conversion and FlexNet licensing plugins.

pub mod text;
pub mod paths;
pub mod mapping;
pub mod error;
pub mod models;
pub mod scripting;
pub mod filesystem;
pub mod jupiter;
pub mod config;
pub mod metrics;
pub mod executor;
pub mod converter;
pub mod processor;
pub mod input_resolver;
pub mod cad_plugin;
pub mod license_mock;
pub mod worker;
pub mod license;
