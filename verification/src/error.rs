//! Error types of the library.
use vstd::prelude::*;

verus! {

/// Errors raised by the engine's operations.
#[derive(Debug, Clone, PartialEq, Eq)]
pub enum AntivirusError {
    /// An internal consistency or validation failure, with its message.
    Internal(String),
    /// A failure of the email scanning subsystem.
    EmailScanning(EmailScanError),
    /// A failure of the scan engine.
    ScanEngine(ScanEngineError),
    /// A file that was to be read does not exist, with its path.
    FileNotFound(String),
    /// A read or write failed, with the system's message.
    IoError(String),
}

/// Failures of the scan engine.
#[derive(Debug, Clone, PartialEq, Eq)]
pub enum ScanEngineError {
    /// A file could not be read for scanning, with the reason.
    FileAccessDenied(String),
    /// No compiled signatures are loaded.
    SignatureDatabaseNotLoaded,
    /// The signature matcher failed, with its message.
    YaraEngine(String),
}

/// Failures of the email scanning subsystem.
#[derive(Debug, Clone, PartialEq, Eq)]
pub enum EmailScanError {
    /// The mail client could not be reached, with the reason.
    MapiInitializationFailed(String),
    /// An attachment could not be written out, with the reason.
    AttachmentExtractionFailed(String),
    /// A temporary file could not be created, with the reason.
    TempFileCreationFailed(String),
}

/// Configuration errors.
#[derive(Debug, Clone, PartialEq, Eq)]
pub enum ConfigError {
    /// A setting holds a value outside its permitted range.
    ValidationFailed(String),
}

/// Errors of the kernel-driver interface.
#[derive(Debug, Clone, Copy, PartialEq, Eq, Structural)]
pub enum DriverError {
    /// The driver could not be reached.
    NotConnected,
}

} // verus!
