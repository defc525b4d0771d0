//! The transfer of the audio to a file, and the coordinator of one attempt.

pub mod download_coordinator;

pub use download_coordinator::{DownloadCoordinator, DownloadEvent};
