//! A uniform data-access layer: one capability-aware operator over pluggable
//! storage backends, with stackable layers between the caller and the backend.

pub mod error;
pub mod capability;
pub mod metadata;
pub mod accessor;
pub mod layer;
pub mod path;
pub mod options;
pub mod operator;
pub mod lister;
pub mod file;
pub mod laws;
pub mod memory;
pub mod config;
pub mod throttle;
pub mod replay;
