//! Error taxonomy: download-job failures, update-check failures, and
//! install failures, each with its human-readable message.

use vstd::prelude::*;

verus! {

/// Failures of the download job. `Cancelled` is a distinct terminal state,
/// not a fault of the tool; `Failed` carries the tool's exit code.
#[derive(Debug, Clone)]
pub enum DownloadError {
    PrerequisiteMissing,
    SpawnError(String),
    StreamCaptureError(String),
    Cancelled,
    Failed(i32),
}

/// The message shown for each download failure.
pub open spec fn spec_download_message(e: DownloadError) -> Seq<char> {
    match e {
        DownloadError::PrerequisiteMissing => "yt-dlp.exe not found. Use Check Update to download it."@,
        DownloadError::SpawnError(m) => "Failed to start yt-dlp: "@ + m@,
        DownloadError::StreamCaptureError(stream) => "Failed to capture yt-dlp "@ + stream@,
        DownloadError::Cancelled => "Process was cancelled"@,
        DownloadError::Failed(code) => "yt-dlp exited with code "@ + crate::strings::spec_int_string(
            code as int,
        ),
    }
}

impl DownloadError {
    /// Renders the failure for the boundary layer.
    pub fn message(&self) -> (r: String)
        ensures
            r@ == spec_download_message(*self),
    {
        match self {
            DownloadError::PrerequisiteMissing => String::from_str(
                "yt-dlp.exe not found. Use Check Update to download it.",
            ),
            DownloadError::SpawnError(m) => {
                let mut s = String::from_str("Failed to start yt-dlp: ");
                s.append(m.as_str());
                s
            },
            DownloadError::StreamCaptureError(stream) => {
                let mut s = String::from_str("Failed to capture yt-dlp ");
                s.append(stream.as_str());
                s
            },
            DownloadError::Cancelled => String::from_str("Process was cancelled"),
            DownloadError::Failed(code) => {
                let mut s = String::from_str("yt-dlp exited with code ");
                let digits = crate::strings::i32_string(*code);
                s.append(digits.as_str());
                s
            },
        }
    }
}

/// Failures of the update check: probing the local tool, fetching and
/// decoding the release feed, and selecting the expected asset.
#[derive(Debug, Clone)]
pub enum UpdateError {
    NotInstalled,
    ProbeError(String),
    NetworkError(String),
    DecodeError(String),
    AssetNotFound,
}

/// The message shown for each update-check failure.
pub open spec fn spec_update_message(e: UpdateError) -> Seq<char> {
    match e {
        UpdateError::NotInstalled => "yt-dlp not installed"@,
        UpdateError::ProbeError(m) => "Failed to run yt-dlp: "@ + m@,
        UpdateError::NetworkError(m) => "Network error: "@ + m@,
        UpdateError::DecodeError(m) => "Parse error: "@ + m@,
        UpdateError::AssetNotFound => "yt-dlp.exe asset not found in release"@,
    }
}

impl UpdateError {
    /// Renders the failure for the boundary layer.
    pub fn message(&self) -> (r: String)
        ensures
            r@ == spec_update_message(*self),
    {
        match self {
            UpdateError::NotInstalled => String::from_str("yt-dlp not installed"),
            UpdateError::ProbeError(m) => {
                let mut s = String::from_str("Failed to run yt-dlp: ");
                s.append(m.as_str());
                s
            },
            UpdateError::NetworkError(m) => {
                let mut s = String::from_str("Network error: ");
                s.append(m.as_str());
                s
            },
            UpdateError::DecodeError(m) => {
                let mut s = String::from_str("Parse error: ");
                s.append(m.as_str());
                s
            },
            UpdateError::AssetNotFound => String::from_str("yt-dlp.exe asset not found in release"),
        }
    }
}

/// Failures of binary or archive installation. `IncompleteArchive` lists the
/// requested members still absent from their canonical destinations after
/// extraction.
#[derive(Debug, Clone)]
pub enum InstallError {
    NetworkError(String),
    ArchiveError(String),
    WriteError(String),
    ReplaceError(String),
    RenameError(String),
    IncompleteArchive(Vec<String>),
}

} // verus!
