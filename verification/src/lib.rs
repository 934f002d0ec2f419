//! Verified core of the act-api-server control plane.
pub mod text;
pub mod shutdown;
pub mod web_url;
pub mod config;
pub mod json;
pub mod youtube;
pub mod gas_client;
pub mod auth;
pub mod web_data_plane;
pub mod transport_runtime;
pub mod control;
