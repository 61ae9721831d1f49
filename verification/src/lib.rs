//! Verified core of selector4nix, a selecting proxy for Nix binary caches.

pub mod error;
pub mod text;
pub mod decimal;
pub mod store_path;
pub mod url;
pub mod substituter;
pub mod lifecycle;
pub mod laws;
pub mod credential;
pub mod sort;
pub mod downloads;
pub mod status;
pub mod metric;
pub mod streaming;
pub mod chunks;
pub mod nar_file;
pub mod resolution;
pub mod shared_map;
