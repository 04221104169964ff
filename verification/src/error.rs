//! Unified error type for the CAD conversion plugin.

use vstd::prelude::*;
use crate::text::{concat2, concat3, decimal, i64_decimal, signed_decimal, u64_decimal};

verus! {

/// Unified error type for all CAD conversion operations.
///
/// Paths are held as strings; errors raised by outside libraries (I/O, ZIP,
/// task joins) are carried as their message text.
#[allow(inconsistent_fields)]
#[derive(Debug)]
pub enum ConversionError {
    /// ZIP archive contains too many files.
    ZipTooManyFiles {
        /// Actual count of files in the archive.
        count: usize,
        /// Maximum allowed files.
        limit: usize,
    },
    /// ZIP extraction exceeded the total size limit.
    ZipSizeExceeded {
        /// Maximum allowed bytes.
        limit: u64,
    },
    /// Output parent directory could not be determined.
    NoParentDir {
        /// The path whose parent could not be determined.
        path: String,
    },
    /// Import command not implemented for this file type.
    ImportNotSupported {
        /// Name of the unsupported file type.
        file_type: String,
    },
    /// Primary file was not specified when required.
    PrimaryNotSpecified,
    /// Primary file was not found among resolved inputs.
    PrimaryNotFound {
        /// The name that was searched for.
        name: String,
    },
    /// No inputs provided for script generation.
    NoInputs,
    /// Jupiter process timed out.
    JupiterTimeout {
        /// The timeout duration that was exceeded.
        timeout_seconds: u64,
    },
    /// Jupiter process exited with a non-zero status.
    JupiterFailed {
        /// The exit code.
        code: i32,
        /// Captured stderr output.
        stderr: String,
        /// Captured stdout output.
        stdout: String,
    },
    /// Jupiter process was killed or terminated by signal.
    JupiterKilled,
    /// Jupiter executable not found at configured path.
    JupiterNotFound {
        /// The configured path that doesn't exist.
        path: String,
    },
    /// Output file was not created after successful Jupiter execution.
    OutputNotCreated {
        /// Expected output path.
        path: String,
    },
    /// Output file is below the minimum size.
    OutputEmpty {
        /// Path to the output file.
        path: String,
    },
    /// Conversion was cancelled.
    Cancelled,
    /// Server is at capacity — no conversion slots available.
    AtCapacity {
        /// Total number of conversion slots.
        max_slots: usize,
    },
    /// A concurrency limiter was closed unexpectedly.
    SemaphoreClosed {
        /// Description of which limiter failed.
        reason: String,
    },
    /// IO error.
    Io(String),
    /// ZIP library error.
    Zip(String),
    /// Task join error.
    Join(String),
    /// Script path contains invalid UTF-8.
    InvalidUtf8Path {
        /// The path, lossily decoded.
        path: String,
    },
}

/// How the host application classifies a conversion error.
#[derive(Debug, Clone, Copy, PartialEq, Eq, Structural)]
pub enum ErrorClass {
    /// The service cannot take the request now.
    ServiceUnavailable,
    /// The request conflicts with the state of the job.
    Conflict,
    /// The request itself is malformed.
    BadRequest,
    /// Anything else.
    Internal,
}

/// The class of each error variant.
pub open spec fn class_of(e: ConversionError) -> ErrorClass {
    match e {
        ConversionError::AtCapacity { .. } => ErrorClass::ServiceUnavailable,
        ConversionError::Cancelled => ErrorClass::Conflict,
        ConversionError::PrimaryNotSpecified => ErrorClass::BadRequest,
        ConversionError::PrimaryNotFound { .. } => ErrorClass::BadRequest,
        ConversionError::NoInputs => ErrorClass::BadRequest,
        _ => ErrorClass::Internal,
    }
}

impl ConversionError {
    /// The class under which the host application reports this error.
    pub fn class(&self) -> (r: ErrorClass)
        ensures
            r == class_of(*self),
    {
        match self {
            ConversionError::AtCapacity { .. } => ErrorClass::ServiceUnavailable,
            ConversionError::Cancelled => ErrorClass::Conflict,
            ConversionError::PrimaryNotSpecified => ErrorClass::BadRequest,
            ConversionError::PrimaryNotFound { .. } => ErrorClass::BadRequest,
            ConversionError::NoInputs => ErrorClass::BadRequest,
            _ => ErrorClass::Internal,
        }
    }
}

/// The message of each error, as the host application shows it.
pub open spec fn conversion_error_message(e: ConversionError) -> Seq<char> {
    match e {
        ConversionError::ZipTooManyFiles { count, limit } => "ZIP contains "@ + decimal(count as nat)
            + " files, exceeding limit of "@ + decimal(limit as nat),
        ConversionError::ZipSizeExceeded { limit } => "ZIP extraction exceeded "@ + decimal(limit as nat)
            + " byte size limit"@,
        ConversionError::NoParentDir { path } => "Cannot determine parent directory for: "@ + path@,
        ConversionError::ImportNotSupported { file_type } => "Import not supported for file type: "@
            + file_type@,
        ConversionError::PrimaryNotSpecified => "Primary file not specified (required for Assembly/Combine mode)"@,
        ConversionError::PrimaryNotFound { name } => "Primary file '"@ + name@ + "' not found in inputs"@,
        ConversionError::NoInputs => "No inputs provided for script generation"@,
        ConversionError::JupiterTimeout { timeout_seconds } => "Jupiter process timed out after "@
            + decimal(timeout_seconds as nat) + "s"@,
        ConversionError::JupiterFailed { code, stderr, .. } => "Jupiter exited with code "@
            + signed_decimal(code as int) + ": "@ + stderr@,
        ConversionError::JupiterKilled => "Jupiter process was killed (signal termination)"@,
        ConversionError::JupiterNotFound { path } => "Jupiter executable not found: "@ + path@,
        ConversionError::OutputNotCreated { path } => "Output file not created: "@ + path@,
        ConversionError::OutputEmpty { path } => "Output file is empty (0 bytes): "@ + path@,
        ConversionError::Cancelled => "Conversion was cancelled"@,
        ConversionError::AtCapacity { max_slots } => "Server at capacity: all "@ + decimal(max_slots as nat)
            + " conversion slots are in use"@,
        ConversionError::SemaphoreClosed { reason } => "Internal semaphore error: "@ + reason@,
        ConversionError::Io(m) => "IO error: "@ + m@,
        ConversionError::Zip(m) => "ZIP error: "@ + m@,
        ConversionError::Join(m) => "Task join error: "@ + m@,
        ConversionError::InvalidUtf8Path { path } => "Path is not valid UTF-8: "@ + path@,
    }
}

impl ConversionError {
    /// An equal, independent copy of this error.
    pub fn duplicate(&self) -> (r: Self)
        ensures
            r == *self,
    {
        match self {
            ConversionError::ZipTooManyFiles { count, limit } => ConversionError::ZipTooManyFiles { count: *count, limit: *limit },
            ConversionError::ZipSizeExceeded { limit } => ConversionError::ZipSizeExceeded { limit: *limit },
            ConversionError::NoParentDir { path } => ConversionError::NoParentDir { path: path.clone() },
            ConversionError::ImportNotSupported { file_type } => ConversionError::ImportNotSupported { file_type: file_type.clone() },
            ConversionError::PrimaryNotSpecified => ConversionError::PrimaryNotSpecified,
            ConversionError::PrimaryNotFound { name } => ConversionError::PrimaryNotFound { name: name.clone() },
            ConversionError::NoInputs => ConversionError::NoInputs,
            ConversionError::JupiterTimeout { timeout_seconds } => ConversionError::JupiterTimeout { timeout_seconds: *timeout_seconds },
            ConversionError::JupiterFailed { code, stderr, stdout } => ConversionError::JupiterFailed {
                code: *code,
                stderr: stderr.clone(),
                stdout: stdout.clone(),
            },
            ConversionError::JupiterKilled => ConversionError::JupiterKilled,
            ConversionError::JupiterNotFound { path } => ConversionError::JupiterNotFound { path: path.clone() },
            ConversionError::OutputNotCreated { path } => ConversionError::OutputNotCreated { path: path.clone() },
            ConversionError::OutputEmpty { path } => ConversionError::OutputEmpty { path: path.clone() },
            ConversionError::Cancelled => ConversionError::Cancelled,
            ConversionError::AtCapacity { max_slots } => ConversionError::AtCapacity { max_slots: *max_slots },
            ConversionError::SemaphoreClosed { reason } => ConversionError::SemaphoreClosed { reason: reason.clone() },
            ConversionError::Io(m) => ConversionError::Io(m.clone()),
            ConversionError::Zip(m) => ConversionError::Zip(m.clone()),
            ConversionError::Join(m) => ConversionError::Join(m.clone()),
            ConversionError::InvalidUtf8Path { path } => ConversionError::InvalidUtf8Path { path: path.clone() },
        }
    }

    /// The error's message.
    pub fn message(&self) -> (r: String)
        ensures
            r@ == conversion_error_message(*self),
    {
        match self {
            ConversionError::ZipTooManyFiles { count, limit } => {
                let c = u64_decimal(*count as u64);
                let l = u64_decimal(*limit as u64);
                let head = concat3("ZIP contains ", c.as_str(), " files, exceeding limit of ");
                concat2(head.as_str(), l.as_str())
            },
            ConversionError::ZipSizeExceeded { limit } => {
                let l = u64_decimal(*limit);
                concat3("ZIP extraction exceeded ", l.as_str(), " byte size limit")
            },
            ConversionError::NoParentDir { path } => concat2("Cannot determine parent directory for: ", path.as_str()),
            ConversionError::ImportNotSupported { file_type } => concat2(
                "Import not supported for file type: ",
                file_type.as_str(),
            ),
            ConversionError::PrimaryNotSpecified => crate::mapping::owned(
                "Primary file not specified (required for Assembly/Combine mode)",
            ),
            ConversionError::PrimaryNotFound { name } => concat3("Primary file '", name.as_str(), "' not found in inputs"),
            ConversionError::NoInputs => crate::mapping::owned("No inputs provided for script generation"),
            ConversionError::JupiterTimeout { timeout_seconds } => {
                let t = u64_decimal(*timeout_seconds);
                concat3("Jupiter process timed out after ", t.as_str(), "s")
            },
            ConversionError::JupiterFailed { code, stderr, .. } => {
                let c = i64_decimal(*code as i64);
                let head = concat3("Jupiter exited with code ", c.as_str(), ": ");
                concat2(head.as_str(), stderr.as_str())
            },
            ConversionError::JupiterKilled => crate::mapping::owned("Jupiter process was killed (signal termination)"),
            ConversionError::JupiterNotFound { path } => concat2("Jupiter executable not found: ", path.as_str()),
            ConversionError::OutputNotCreated { path } => concat2("Output file not created: ", path.as_str()),
            ConversionError::OutputEmpty { path } => concat2("Output file is empty (0 bytes): ", path.as_str()),
            ConversionError::Cancelled => crate::mapping::owned("Conversion was cancelled"),
            ConversionError::AtCapacity { max_slots } => {
                let m = u64_decimal(*max_slots as u64);
                concat3("Server at capacity: all ", m.as_str(), " conversion slots are in use")
            },
            ConversionError::SemaphoreClosed { reason } => concat2("Internal semaphore error: ", reason.as_str()),
            ConversionError::Io(m) => concat2("IO error: ", m.as_str()),
            ConversionError::Zip(m) => concat2("ZIP error: ", m.as_str()),
            ConversionError::Join(m) => concat2("Task join error: ", m.as_str()),
            ConversionError::InvalidUtf8Path { path } => concat2("Path is not valid UTF-8: ", path.as_str()),
        }
    }
}

} // verus!
