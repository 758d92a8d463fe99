//! The error taxonomy shared by the components, with verified rendering of
//! each error as diagnostic text.

use vstd::prelude::*;
use vstd::string::StringExecFns;
use crate::strutil::dec_rep;
use crate::strutil::u64_to_string;

verus! {

/// A failure of the streaming download protocol.
#[derive(Debug, PartialEq, Eq)]
pub enum DownloadError {
    /// The pre-existing file at the destination could not be deleted.
    CannotRemoveExisting(String),
    /// The destination's parent directory was missing and could not be made.
    DirectoryCreateFailed(String),
    /// The destination directory refused a write probe, or the transport
    /// reported a permission failure.
    PermissionDenied(String),
    /// The server answered outside the 2xx range.
    HttpStatus { status: u16, reason: String },
    /// The transport could not resolve the host.
    NetworkUnreachable(String),
    /// The disk filled up while writing.
    DiskSpaceExhausted(String),
    /// The finished file holds no bytes at all.
    EmptyDownload,
    /// The finished file's size differs from the announced content length.
    IncompleteDownload { expected: u64, actual: u64 },
    /// Any other transport or filesystem failure, with its diagnostic text.
    DownloadFailed(String),
}

/// A failure while persisting a pushed encoded payload.
#[derive(Debug, PartialEq, Eq)]
pub enum SaveError {
    /// The destination's parent directory was missing and could not be made.
    DirectoryCreateFailed(String),
    /// The chunk at `index` was not valid base64.
    ChunkDecode { index: usize, detail: String },
}

/// A failure while dispatching an artifact to the platform.
#[derive(Debug, PartialEq, Eq)]
pub enum LaunchError {
    /// The artifact to open, reveal or install does not exist.
    ArtifactNotFound(String),
    /// The platform has no native install step for this artifact kind.
    UnsupportedOperation,
    /// The platform command ran and failed; holds its error output.
    Subprocess(String),
}

/// A failure to find any writable directory.
#[derive(Debug, PartialEq, Eq)]
pub enum ResolveError {
    /// No candidate accepted a probe, nor did the temp fallback; holds the
    /// file name the resolution was for.
    NoWritableLocation(String),
}

impl DownloadError {
    /// The diagnostic text of this error.
    pub open spec fn message_spec(&self) -> Seq<char> {
        match self {
            DownloadError::CannotRemoveExisting(d) => "Cannot remove existing file: "@ + d@,
            DownloadError::DirectoryCreateFailed(d) => "Failed to create directory: "@ + d@,
            DownloadError::PermissionDenied(d) => "Permission denied: "@ + d@,
            DownloadError::HttpStatus { status, reason } => "HTTP error: "@ + dec_rep(
                *status as int,
            ) + " - "@ + reason@,
            DownloadError::NetworkUnreachable(d) => "Network error - could not resolve host: "@
                + d@,
            DownloadError::DiskSpaceExhausted(d) => "Insufficient disk space: "@ + d@,
            DownloadError::EmptyDownload => "Downloaded file is empty (0 bytes)"@,
            DownloadError::IncompleteDownload { expected, actual } => {
                "Incomplete download: expected "@ + dec_rep(*expected as int) + " bytes, got "@
                    + dec_rep(*actual as int) + " bytes"@
            },
            DownloadError::DownloadFailed(d) => "Download failed: "@ + d@,
        }
    }

    /// Renders the error as human-readable text.
    pub fn message(&self) -> (m: String)
        ensures
            m@ == self.message_spec(),
    {
        match self {
            DownloadError::CannotRemoveExisting(d) => String::from_str(
                "Cannot remove existing file: ",
            ).concat(d.as_str()),
            DownloadError::DirectoryCreateFailed(d) => String::from_str(
                "Failed to create directory: ",
            ).concat(d.as_str()),
            DownloadError::PermissionDenied(d) => String::from_str("Permission denied: ").concat(
                d.as_str(),
            ),
            DownloadError::HttpStatus { status, reason } => {
                let s = u64_to_string(*status as u64);
                String::from_str("HTTP error: ").concat(s.as_str()).concat(" - ").concat(
                    reason.as_str(),
                )
            },
            DownloadError::NetworkUnreachable(d) => String::from_str(
                "Network error - could not resolve host: ",
            ).concat(d.as_str()),
            DownloadError::DiskSpaceExhausted(d) => String::from_str(
                "Insufficient disk space: ",
            ).concat(d.as_str()),
            DownloadError::EmptyDownload => String::from_str("Downloaded file is empty (0 bytes)"),
            DownloadError::IncompleteDownload { expected, actual } => {
                let e = u64_to_string(*expected);
                let a = u64_to_string(*actual);
                String::from_str("Incomplete download: expected ").concat(e.as_str()).concat(
                    " bytes, got ",
                ).concat(a.as_str()).concat(" bytes")
            },
            DownloadError::DownloadFailed(d) => String::from_str("Download failed: ").concat(
                d.as_str(),
            ),
        }
    }
}

impl SaveError {
    /// The diagnostic text of this error.
    pub open spec fn message_spec(&self) -> Seq<char> {
        match self {
            SaveError::DirectoryCreateFailed(d) => "Failed to create directory: "@ + d@,
            SaveError::ChunkDecode { index, detail } => "Failed to decode base64 chunk "@ + dec_rep(
                *index as int,
            ) + ": "@ + detail@,
        }
    }

    /// Renders the error as human-readable text.
    pub fn message(&self) -> (m: String)
        ensures
            m@ == self.message_spec(),
    {
        match self {
            SaveError::DirectoryCreateFailed(d) => String::from_str(
                "Failed to create directory: ",
            ).concat(d.as_str()),
            SaveError::ChunkDecode { index, detail } => {
                let i = u64_to_string(*index as u64);
                String::from_str("Failed to decode base64 chunk ").concat(i.as_str()).concat(
                    ": ",
                ).concat(detail.as_str())
            },
        }
    }
}

impl LaunchError {
    /// The diagnostic text of this error.
    pub open spec fn message_spec(&self) -> Seq<char> {
        match self {
            LaunchError::ArtifactNotFound(p) => "File not found: "@ + p@,
            LaunchError::UnsupportedOperation => "Installation is not supported on this platform"@,
            LaunchError::Subprocess(stderr) => "Command failed: "@ + stderr@,
        }
    }

    /// Renders the error as human-readable text.
    pub fn message(&self) -> (m: String)
        ensures
            m@ == self.message_spec(),
    {
        match self {
            LaunchError::ArtifactNotFound(p) => String::from_str("File not found: ").concat(
                p.as_str(),
            ),
            LaunchError::UnsupportedOperation => String::from_str(
                "Installation is not supported on this platform",
            ),
            LaunchError::Subprocess(stderr) => String::from_str("Command failed: ").concat(
                stderr.as_str(),
            ),
        }
    }
}

impl ResolveError {
    /// The diagnostic text of this error.
    pub open spec fn message_spec(&self) -> Seq<char> {
        match self {
            ResolveError::NoWritableLocation(name) => "No writable directories found for file: "@
                + name@,
        }
    }

    /// Renders the error as human-readable text.
    pub fn message(&self) -> (m: String)
        ensures
            m@ == self.message_spec(),
    {
        match self {
            ResolveError::NoWritableLocation(name) => String::from_str(
                "No writable directories found for file: ",
            ).concat(name.as_str()),
        }
    }
}

} // verus!
