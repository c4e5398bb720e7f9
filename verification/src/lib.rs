//! Core logic of a media-download manager: progress-line parsing, a
//! single-slot process supervisor with cooperative cancellation, version
//! reconciliation against a remote release feed, and crash-safe binary
//! installation.

pub mod errors;
pub mod installer;
pub mod paths;
pub mod progress;
pub mod settings;
pub mod strings;
pub mod supervisor;
pub mod version;
