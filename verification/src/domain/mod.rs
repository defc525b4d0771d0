//! The values that the pipeline hands to its callers.

pub mod error;
pub mod model;

pub use error::AppError;
pub use model::{DownloadPhase, DownloadPlan, Progress};
