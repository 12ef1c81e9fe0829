//! Error types of the library.
use vstd::prelude::*;

verus! {

#[verifier::external_type_specification]
#[verifier::external_body]
pub struct ExIoError(std::io::Error);

#[verifier::external_type_specification]
#[verifier::external_body]
pub struct ExNvmlError(nvml_wrapper::error::NvmlError);

#[verifier::external_type_specification]
#[verifier::external_body]
pub struct ExErrno(nix::errno::Errno);

/// Legacy error type for backward compatibility
#[derive(Debug)]
pub enum SimonError {
    /// I/O error
    Io(std::io::Error),
    /// NVML error
    Nvml(nvml_wrapper::error::NvmlError),
    /// Parse error
    Parse(String),
    /// Device not found
    DeviceNotFound(String),
    /// Permission denied
    PermissionDenied(String),
    /// Unsupported platform
    UnsupportedPlatform(String),
    /// Feature not available
    FeatureNotAvailable(String),
    /// Invalid value
    InvalidValue(String),
    /// Command failed
    CommandFailed(String),
    /// System error
    System(String),
    /// Initialization error
    InitializationError(String),
    /// Configuration error
    ConfigError(String),
    /// Network error (for remote backends)
    Network(String),
    /// Agent/AI backend error
    Agent(String),
    /// Not implemented
    NotImplemented(String),
    /// Configuration error (alias for ConfigError)
    Configuration(String),
    /// Other error
    Other(String),
}

/// Main error type for unified GPU interface
#[derive(Debug)]
pub enum Error {
    /// I/O error
    Io(std::io::Error),
    /// NVML error (NVIDIA GPUs)
    Nvml(nvml_wrapper::error::NvmlError),
    /// GPU-specific error
    GpuError(String),
    /// Process-related error
    ProcessError(String),
    /// Feature not supported
    NotSupported(String),
    /// Permission denied
    PermissionDenied(String),
    /// Device not found
    DeviceNotFound(String),
    /// Invalid parameter
    InvalidParameter(String),
    /// Parse error
    ParseError(String),
    /// Command execution failed
    CommandExecutionFailed(String),
    /// Feature not supported
    Unsupported(String),
    /// System error
    SystemError(String),
    /// Nix error (Unix)
    Nix(nix::errno::Errno),
    /// Legacy error for backward compatibility
    Legacy(SimonError),
    /// Other error
    Other(String),
}

/// The text of a `nix` error (`<nix::errno::Errno as Display>::fmt`, which
/// writes the variant name and the description of the error number).
/// Nothing is stated of the text: it is a table of the C library's error
/// numbers.
#[verifier::external_body]
pub(crate) fn errno_text(e: &nix::errno::Errno) -> String {
    e.to_string()
}

/// The text of an I/O error (`<std::io::Error as Display>::fmt`). Nothing is
/// stated of the text: for an operating-system error it is the system's own
/// description of the error number.
#[verifier::external_body]
pub(crate) fn io_error_text(e: &std::io::Error) -> String {
    e.to_string()
}

/// The legacy variant an error maps to, for every variant whose payload the
/// mapping keeps as it is.
pub open spec fn legacy_of(err: Error) -> Option<SimonError> {
    match err {
        Error::Io(e) => Some(SimonError::Io(e)),
        Error::Nvml(e) => Some(SimonError::Nvml(e)),
        Error::GpuError(s) => Some(SimonError::Other(s)),
        Error::ProcessError(s) => Some(SimonError::Other(s)),
        Error::SystemError(s) => Some(SimonError::Other(s)),
        Error::CommandExecutionFailed(s) => Some(SimonError::Other(s)),
        Error::Other(s) => Some(SimonError::Other(s)),
        Error::NotSupported(s) => Some(SimonError::FeatureNotAvailable(s)),
        Error::Unsupported(s) => Some(SimonError::FeatureNotAvailable(s)),
        Error::PermissionDenied(s) => Some(SimonError::PermissionDenied(s)),
        Error::DeviceNotFound(s) => Some(SimonError::DeviceNotFound(s)),
        Error::InvalidParameter(s) => Some(SimonError::Parse(s)),
        Error::ParseError(s) => Some(SimonError::Parse(s)),
        Error::Nix(_) => None,
        Error::Legacy(e) => Some(e),
    }
}

impl SimonError {
    /// The legacy error for a unified error: GPU, process, system, command
    /// and other errors become `Other`, unsupported features
    /// `FeatureNotAvailable`, invalid parameters and parse errors `Parse`,
    /// a `nix` error a `System` error holding its text; the rest keep their
    /// kind and payload.
    pub fn from_error(err: Error) -> (r: SimonError)
        ensures
            legacy_of(err) matches Some(l) ==> r == l,
            err is Nix ==> r is System,
    {
        match err {
            Error::Io(e) => SimonError::Io(e),
            Error::Nvml(e) => SimonError::Nvml(e),
            Error::GpuError(s) => SimonError::Other(s),
            Error::ProcessError(s) => SimonError::Other(s),
            Error::SystemError(s) => SimonError::Other(s),
            Error::CommandExecutionFailed(s) => SimonError::Other(s),
            Error::Other(s) => SimonError::Other(s),
            Error::NotSupported(s) => SimonError::FeatureNotAvailable(s),
            Error::Unsupported(s) => SimonError::FeatureNotAvailable(s),
            Error::PermissionDenied(s) => SimonError::PermissionDenied(s),
            Error::DeviceNotFound(s) => SimonError::DeviceNotFound(s),
            Error::InvalidParameter(s) => SimonError::Parse(s),
            Error::ParseError(s) => SimonError::Parse(s),
            Error::Nix(e) => SimonError::System(errno_text(&e)),
            Error::Legacy(e) => e,
        }
    }
}

} // verus!
