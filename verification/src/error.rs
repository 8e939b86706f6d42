//! Error taxonomy of the audio core: one enum per subsystem, a severity for
//! routing, and a context record that says where an error arose.

use std::time::SystemTime;
use vstd::prelude::*;
use vstd::std_specs::convert::FromSpecImpl;
use vstd::string::StringExecFns;

verus! {

/// How loudly an error is reported. The variants are listed from the least to
/// the most severe, and the derived order follows that listing.
#[derive(Debug, Clone, Copy, PartialEq, Eq, PartialOrd, Ord, Structural)]
pub enum ErrorSeverity {
    /// Silent retry; observability only.
    Low,
    /// Reported; work goes on with the next item.
    Medium,
    /// Degraded performance.
    High,
    /// User-visible notification and a recovery attempt.
    Critical,
}

impl ErrorSeverity {
    /// Position of the severity on the scale, 0 for `Low` up to 3 for `Critical`.
    pub open spec fn level(self) -> nat {
        match self {
            ErrorSeverity::Low => 0,
            ErrorSeverity::Medium => 1,
            ErrorSeverity::High => 2,
            ErrorSeverity::Critical => 3,
        }
    }

    /// Only `Critical` errors are shown to the user.
    pub fn notifies_user(&self) -> (notify: bool)
        ensures
            notify == (self.level() == 3),
    {
        match self {
            ErrorSeverity::Critical => true,
            _ => false,
        }
    }
}

/// Errors of the audio driver and of the processing path.
#[derive(Debug)]
pub enum AudioError {
    DriverInitFailed { driver: String, reason: String },
    DriverRuntimeError { driver: String, reason: String },
    BufferUnderrun { samples_lost: usize },
    /// Both durations are in microseconds.
    LatencyExceeded { actual_us: u64, budget_us: u64 },
    InvalidConfig { reason: String },
    NoDevicesAvailable,
}

impl AudioError {
    /// Everything but a bad configuration and the absence of devices can be
    /// recovered from without the user.
    pub fn is_recoverable(&self) -> (recoverable: bool)
        ensures
            recoverable == !(self is InvalidConfig || self is NoDevicesAvailable),
    {
        match self {
            AudioError::InvalidConfig { .. } => false,
            AudioError::NoDevicesAvailable => false,
            _ => true,
        }
    }

    pub open spec fn spec_severity(&self) -> ErrorSeverity {
        match self {
            AudioError::DriverInitFailed { .. } => ErrorSeverity::Critical,
            AudioError::DriverRuntimeError { .. } => ErrorSeverity::Critical,
            AudioError::BufferUnderrun { .. } => ErrorSeverity::High,
            AudioError::LatencyExceeded { .. } => ErrorSeverity::High,
            AudioError::InvalidConfig { .. } => ErrorSeverity::Medium,
            AudioError::NoDevicesAvailable => ErrorSeverity::Critical,
        }
    }

    pub fn severity(&self) -> (severity: ErrorSeverity)
        ensures
            severity == self.spec_severity(),
    {
        match self {
            AudioError::DriverInitFailed { .. } => ErrorSeverity::Critical,
            AudioError::DriverRuntimeError { .. } => ErrorSeverity::Critical,
            AudioError::BufferUnderrun { .. } => ErrorSeverity::High,
            AudioError::LatencyExceeded { .. } => ErrorSeverity::High,
            AudioError::InvalidConfig { .. } => ErrorSeverity::Medium,
            AudioError::NoDevicesAvailable => ErrorSeverity::Critical,
        }
    }
}

/// Errors of a compute backend. Each of them leaves the CPU reference path open.
#[derive(Debug)]
pub enum GpuError {
    InitializationFailed { backend: String, reason: String },
    MemoryAllocationFailed { requested_bytes: usize, available_bytes: usize },
    KernelExecutionFailed { kernel_name: String, reason: String },
    MemoryTransferFailed { reason: String },
    NoGpuAvailable { backend: String },
}

impl GpuError {
    pub fn can_fallback_to_cpu(&self) -> (fallback: bool)
        ensures
            fallback,
    {
        true
    }

    pub fn severity(&self) -> (severity: ErrorSeverity)
        ensures
            severity == ErrorSeverity::High,
    {
        ErrorSeverity::High
    }
}

/// Errors of reading audio files.
#[derive(Debug)]
pub enum FileIoError {
    FileNotFound { path: String },
    UnsupportedFormat { format: String, path: String },
    FileSizeExceeded { size_bytes: u64, limit_bytes: u64 },
    FileCorrupted { path: String, reason: String },
    /// An error of the operating system, in its own words.
    Io { reason: String },
}

impl FileIoError {
    pub fn severity(&self) -> (severity: ErrorSeverity)
        ensures
            severity == ErrorSeverity::Medium,
    {
        ErrorSeverity::Medium
    }
}

/// Errors of device discovery and of the streaming socket.
#[derive(Debug)]
pub enum NetworkError {
    DiscoveryFailed { reason: String },
    WebSocketError { reason: String },
    InvalidMessage { reason: String },
}

impl NetworkError {
    pub fn severity(&self) -> (severity: ErrorSeverity)
        ensures
            severity == ErrorSeverity::Low,
    {
        ErrorSeverity::Low
    }
}

/// Errors of configuration values.
#[derive(Debug)]
pub enum ConfigError {
    InvalidValue { key: String, reason: String },
    MissingRequired { key: String },
    ParseError(String),
}

/// Errors at the boundary to foreign code.
#[derive(Debug)]
pub enum FfiError {
    NullPointer { context: String },
    InvalidBufferSize { expected: usize, actual: usize },
    CppException { message: String },
    AlignmentError { expected: usize, actual: usize },
}

/// Any error of the audio core, by subsystem.
#[derive(Debug)]
pub enum VortexError {
    Audio(AudioError),
    Gpu(GpuError),
    FileIo(FileIoError),
    Network(NetworkError),
    Config(ConfigError),
    Ffi(FfiError),
}

pub type VortexResult<T> = Result<T, VortexError>;

impl From<AudioError> for VortexError {
    fn from(e: AudioError) -> (r: VortexError) {
        VortexError::Audio(e)
    }
}

impl FromSpecImpl<AudioError> for VortexError {
    open spec fn obeys_from_spec() -> bool {
        true
    }

    open spec fn from_spec(e: AudioError) -> VortexError {
        VortexError::Audio(e)
    }
}

impl From<GpuError> for VortexError {
    fn from(e: GpuError) -> (r: VortexError) {
        VortexError::Gpu(e)
    }
}

impl FromSpecImpl<GpuError> for VortexError {
    open spec fn obeys_from_spec() -> bool {
        true
    }

    open spec fn from_spec(e: GpuError) -> VortexError {
        VortexError::Gpu(e)
    }
}

impl From<FileIoError> for VortexError {
    fn from(e: FileIoError) -> (r: VortexError) {
        VortexError::FileIo(e)
    }
}

impl FromSpecImpl<FileIoError> for VortexError {
    open spec fn obeys_from_spec() -> bool {
        true
    }

    open spec fn from_spec(e: FileIoError) -> VortexError {
        VortexError::FileIo(e)
    }
}

impl From<NetworkError> for VortexError {
    fn from(e: NetworkError) -> (r: VortexError) {
        VortexError::Network(e)
    }
}

impl FromSpecImpl<NetworkError> for VortexError {
    open spec fn obeys_from_spec() -> bool {
        true
    }

    open spec fn from_spec(e: NetworkError) -> VortexError {
        VortexError::Network(e)
    }
}

impl From<ConfigError> for VortexError {
    fn from(e: ConfigError) -> (r: VortexError) {
        VortexError::Config(e)
    }
}

impl FromSpecImpl<ConfigError> for VortexError {
    open spec fn obeys_from_spec() -> bool {
        true
    }

    open spec fn from_spec(e: ConfigError) -> VortexError {
        VortexError::Config(e)
    }
}

impl From<FfiError> for VortexError {
    fn from(e: FfiError) -> (r: VortexError) {
        VortexError::Ffi(e)
    }
}

impl FromSpecImpl<FfiError> for VortexError {
    open spec fn obeys_from_spec() -> bool {
        true
    }

    open spec fn from_spec(e: FfiError) -> VortexError {
        VortexError::Ffi(e)
    }
}

impl VortexError {
    pub open spec fn spec_severity(&self) -> ErrorSeverity {
        match self {
            VortexError::Audio(e) => e.spec_severity(),
            VortexError::Gpu(_) => ErrorSeverity::High,
            VortexError::FileIo(_) => ErrorSeverity::Medium,
            VortexError::Network(_) => ErrorSeverity::Low,
            VortexError::Config(_) => ErrorSeverity::Medium,
            VortexError::Ffi(_) => ErrorSeverity::High,
        }
    }
}

/// What to do after an error.
#[derive(Debug, Clone)]
pub enum RecoveryStrategy {
    NoRecovery,
    RetryWithBackoff { max_attempts: u32, initial_delay_ms: u64 },
    Fallback { description: String },
    Reset { component: String },
}

/// `std::time::SystemTime`: an instant of the system clock, carried through
/// and never looked into.
#[verifier::external_type_specification]
#[verifier::external_body]
pub struct ExSystemTime(SystemTime);

/// `SystemTime` is `Copy`: its `clone` hands back the same instant.
pub assume_specification[ <SystemTime as Clone>::clone ](t: &SystemTime) -> (r: SystemTime)
    ensures
        r == *t,
;

/// `std::time::SystemTime::now`: the reading of the system clock. Nothing is
/// claimed of the value.
#[verifier::external_body]
fn system_now() -> (now: SystemTime) {
    SystemTime::now()
}

/// Where and when an error arose.
#[derive(Debug, Clone)]
pub struct ErrorContext {
    pub component: String,
    pub operation: String,
    pub timestamp: SystemTime,
    pub additional_info: Option<String>,
}

impl ErrorContext {
    /// A context for `operation` in `component`, stamped with the current time
    /// and without further information.
    pub fn new(component: &str, operation: &str) -> (ctx: ErrorContext)
        ensures
            ctx.component@ == component@,
            ctx.operation@ == operation@,
            ctx.additional_info is None,
    {
        ErrorContext {
            component: String::from_str(component),
            operation: String::from_str(operation),
            timestamp: system_now(),
            additional_info: None,
        }
    }

    /// The same context with `info` attached, replacing what was attached before.
    pub fn with_info(self, info: &str) -> (ctx: ErrorContext)
        ensures
            ctx.component == self.component,
            ctx.operation == self.operation,
            ctx.timestamp == self.timestamp,
            ctx.additional_info matches Some(s) && s@ == info@,
    {
        ErrorContext {
            component: self.component,
            operation: self.operation,
            timestamp: self.timestamp,
            additional_info: Some(String::from_str(info)),
        }
    }
}

/// A policy that decides how errors are recovered from, logged and shown.
pub trait ErrorHandler {
    /// The strategy for recovering from `error`.
    fn handle_error(&self, error: &VortexError, context: &ErrorContext) -> RecoveryStrategy;

    /// Records `error` at the level that suits it.
    fn log_error(&self, error: &VortexError, context: &ErrorContext);

    /// Tells the user of `error` where `severity` calls for it.
    fn notify_user(&self, error: &VortexError, severity: ErrorSeverity);
}

} // verus!
