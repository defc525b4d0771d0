//! The handshake with the conversion service.

pub mod client;
pub mod models;

pub use client::{ApiClient, ApiError};
pub use models::{ApiConfig, ConvertResponse, InitResponse};
