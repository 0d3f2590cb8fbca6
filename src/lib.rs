//! A jailed file-server core: the path sandboxing engine that decides whether
//! an untrusted path may refer to a location inside a jail root, and the small
//! decisions that the request handlers build on it.

pub mod assets;
pub mod config;
pub mod error;
pub mod handlers;
pub mod laws;
pub mod listing;
pub mod models;
pub mod path;
pub mod security;
pub mod text;
pub mod upload;

pub use config::{Config, RawConfig};
pub use error::{AppError, Fault};
pub use path::{split_user_path, AbsPath};
pub use security::{
    validate_directory, validate_existing, validate_file, validate_filename, validate_path,
    NodeKind, Probe,
};
