//! Error types: the uniform conversion error and the provisioning error,
//! each with a human-readable message.

use vstd::prelude::*;

verus! {

/// A failure of one conversion request.
#[derive(Debug, Clone)]
pub enum ConversionError {
    FileNotFound(String),
    UnsupportedFormat(String),
    IoError(String),
    ImageError(String),
    ConversionFailed(String),
}

/// The message text of a conversion error.
pub open spec fn error_message(e: ConversionError) -> Seq<char> {
    match e {
        ConversionError::FileNotFound(p) => "File not found: "@ + p@,
        ConversionError::UnsupportedFormat(f) => "Unsupported format: "@ + f@,
        ConversionError::IoError(m) => "IO error: "@ + m@,
        ConversionError::ImageError(m) => "Image error: "@ + m@,
        ConversionError::ConversionFailed(m) => "Conversion failed: "@ + m@,
    }
}

impl ConversionError {
    /// Renders the error as its message text.
    pub fn message(&self) -> (r: String)
        ensures
            r@ == error_message(*self),
    {
        match self {
            ConversionError::FileNotFound(p) => String::from_str("File not found: ").concat(
                p.as_str(),
            ),
            ConversionError::UnsupportedFormat(f) => String::from_str(
                "Unsupported format: ",
            ).concat(f.as_str()),
            ConversionError::IoError(m) => String::from_str("IO error: ").concat(m.as_str()),
            ConversionError::ImageError(m) => String::from_str("Image error: ").concat(m.as_str()),
            ConversionError::ConversionFailed(m) => String::from_str("Conversion failed: ").concat(
                m.as_str(),
            ),
        }
    }
}

/// A failure while provisioning the encoder binary.
#[derive(Debug, Clone, Copy, PartialEq, Eq, Structural)]
pub enum ProvisionError {
    /// No download is published for this operating system and architecture.
    UnsupportedPlatform,
    /// The archive could not be fetched.
    DownloadFailed,
    /// The fetched archive could not be read.
    ExtractionFailed,
    /// The executable permission could not be set.
    PermissionFailed,
    /// The archive held no entry for the encoder binary.
    MissingEntry,
}

/// The message text of a provisioning error.
pub open spec fn provision_message(e: ProvisionError) -> Seq<char> {
    match e {
        ProvisionError::UnsupportedPlatform => "Unsupported platform for FFmpeg download"@,
        ProvisionError::DownloadFailed => "Failed to download FFmpeg"@,
        ProvisionError::ExtractionFailed => "Failed to read FFmpeg archive"@,
        ProvisionError::PermissionFailed => "Failed to set permissions"@,
        ProvisionError::MissingEntry => "FFmpeg binary not found in archive"@,
    }
}

impl ProvisionError {
    /// Renders the error as its message text.
    pub fn message(&self) -> (r: String)
        ensures
            r@ == provision_message(*self),
    {
        match self {
            ProvisionError::UnsupportedPlatform => String::from_str(
                "Unsupported platform for FFmpeg download",
            ),
            ProvisionError::DownloadFailed => String::from_str("Failed to download FFmpeg"),
            ProvisionError::ExtractionFailed => String::from_str("Failed to read FFmpeg archive"),
            ProvisionError::PermissionFailed => String::from_str("Failed to set permissions"),
            ProvisionError::MissingEntry => String::from_str("FFmpeg binary not found in archive"),
        }
    }
}

} // verus!
