//! The errors in words.
//!
//! Each error has a `message()` that says what went wrong, and a
//! `spec_message()` that says what the message is.

use crate::audio::engine::AudioEngineError;
use crate::error::{
    AudioError, ConfigError, FfiError, FileIoError, GpuError, NetworkError, VortexError,
};
use crate::text::{decimal, digit_char, push_decimal};
use vstd::prelude::*;
use vstd::string::StringExecFns;

verus! {

/// A duration of `us` microseconds in milliseconds: the whole milliseconds
/// and, where microseconds are left over, a point and their three digits
/// without the zeros at the end.
pub open spec fn millis(us: nat) -> Seq<char> {
    let whole = decimal(us / 1000);
    let rest = us % 1000;
    if rest == 0 {
        whole
    } else if rest % 100 == 0 {
        whole + seq!['.', digit_char(rest / 100)]
    } else if rest % 10 == 0 {
        whole + seq!['.', digit_char(rest / 100), digit_char((rest / 10) % 10)]
    } else {
        whole + seq!['.', digit_char(rest / 100), digit_char((rest / 10) % 10), digit_char(rest % 10)]
    }
}

/// Appends `us` microseconds in milliseconds to `text`.
pub fn push_millis(text: &mut String, us: u64)
    ensures
        final(text)@ == old(text)@ + millis(us as nat),
{
    let rest = us % 1000;
    push_decimal(text, (us / 1000) as u128);
    if rest != 0 {
        text.append(".");
        push_decimal(text, (rest / 100) as u128);
        if rest % 100 != 0 {
            push_decimal(text, ((rest / 10) % 10) as u128);
            if rest % 10 != 0 {
                push_decimal(text, (rest % 10) as u128);
            }
        }
    }
    proof {
        reveal_strlit(".");
        assert("."@ =~= seq!['.']);
        assert(text@ =~= old(text)@ + millis(us as nat));
    }
}

impl AudioError {
    /// What `message` says.
    pub open spec fn spec_message(&self) -> Seq<char> {
        match self {
            AudioError::DriverInitFailed { driver, reason } => "Failed to initialize audio driver '"@ + driver@ + "': "@ + reason@,
            AudioError::DriverRuntimeError { driver, reason } => "Audio driver '"@ + driver@ + "' failed during operation: "@ + reason@,
            AudioError::BufferUnderrun { samples_lost } => "Audio buffer underrun detected: "@ + decimal(*samples_lost as nat) + " samples lost"@,
            AudioError::LatencyExceeded { actual_us, budget_us } => "Processing latency "@ + millis(*actual_us as nat) + "ms exceeded budget "@ + millis(*budget_us as nat) + "ms"@,
            AudioError::InvalidConfig { reason } => "Invalid audio configuration: "@ + reason@,
            AudioError::NoDevicesAvailable => "No audio devices available"@,
        }
    }

    /// The audio error in words.
    pub fn message(&self) -> (text: String)
        ensures
            text@ == self.spec_message(),
    {
        match self {
            AudioError::DriverInitFailed { driver, reason } => {
                let mut text = String::from_str("Failed to initialize audio driver '");
                text.append(driver.as_str());
                text.append("': ");
                text.append(reason.as_str());
                assert(text@ =~= self.spec_message());
                text
            },
            AudioError::DriverRuntimeError { driver, reason } => {
                let mut text = String::from_str("Audio driver '");
                text.append(driver.as_str());
                text.append("' failed during operation: ");
                text.append(reason.as_str());
                assert(text@ =~= self.spec_message());
                text
            },
            AudioError::BufferUnderrun { samples_lost } => {
                let mut text = String::from_str("Audio buffer underrun detected: ");
                push_decimal(&mut text, *samples_lost as u128);
                text.append(" samples lost");
                assert(text@ =~= self.spec_message());
                text
            },
            AudioError::LatencyExceeded { actual_us, budget_us } => {
                let mut text = String::from_str("Processing latency ");
                push_millis(&mut text, *actual_us);
                text.append("ms exceeded budget ");
                push_millis(&mut text, *budget_us);
                text.append("ms");
                assert(text@ =~= self.spec_message());
                text
            },
            AudioError::InvalidConfig { reason } => {
                let mut text = String::from_str("Invalid audio configuration: ");
                text.append(reason.as_str());
                assert(text@ =~= self.spec_message());
                text
            },
            AudioError::NoDevicesAvailable => {
                let mut text = String::from_str("No audio devices available");
                assert(text@ =~= self.spec_message());
                text
            },
        }
    }
}

impl GpuError {
    /// What `message` says.
    pub open spec fn spec_message(&self) -> Seq<char> {
        match self {
            GpuError::InitializationFailed { backend, reason } => "Failed to initialize GPU backend '"@ + backend@ + "': "@ + reason@,
            GpuError::MemoryAllocationFailed { requested_bytes, available_bytes } => "GPU memory allocation failed: requested "@ + decimal(*requested_bytes as nat) + " bytes, available "@ + decimal(*available_bytes as nat) + " bytes"@,
            GpuError::KernelExecutionFailed { kernel_name, reason } => "GPU kernel '"@ + kernel_name@ + "' execution failed: "@ + reason@,
            GpuError::MemoryTransferFailed { reason } => "GPU memory transfer failed: "@ + reason@,
            GpuError::NoGpuAvailable { backend } => "No compatible GPU found for backend '"@ + backend@ + "'"@,
        }
    }

    /// The backend error in words.
    pub fn message(&self) -> (text: String)
        ensures
            text@ == self.spec_message(),
    {
        match self {
            GpuError::InitializationFailed { backend, reason } => {
                let mut text = String::from_str("Failed to initialize GPU backend '");
                text.append(backend.as_str());
                text.append("': ");
                text.append(reason.as_str());
                assert(text@ =~= self.spec_message());
                text
            },
            GpuError::MemoryAllocationFailed { requested_bytes, available_bytes } => {
                let mut text = String::from_str("GPU memory allocation failed: requested ");
                push_decimal(&mut text, *requested_bytes as u128);
                text.append(" bytes, available ");
                push_decimal(&mut text, *available_bytes as u128);
                text.append(" bytes");
                assert(text@ =~= self.spec_message());
                text
            },
            GpuError::KernelExecutionFailed { kernel_name, reason } => {
                let mut text = String::from_str("GPU kernel '");
                text.append(kernel_name.as_str());
                text.append("' execution failed: ");
                text.append(reason.as_str());
                assert(text@ =~= self.spec_message());
                text
            },
            GpuError::MemoryTransferFailed { reason } => {
                let mut text = String::from_str("GPU memory transfer failed: ");
                text.append(reason.as_str());
                assert(text@ =~= self.spec_message());
                text
            },
            GpuError::NoGpuAvailable { backend } => {
                let mut text = String::from_str("No compatible GPU found for backend '");
                text.append(backend.as_str());
                text.append("'");
                assert(text@ =~= self.spec_message());
                text
            },
        }
    }
}

impl FileIoError {
    /// What `message` says.
    pub open spec fn spec_message(&self) -> Seq<char> {
        match self {
            FileIoError::FileNotFound { path } => "File not found: "@ + path@,
            FileIoError::UnsupportedFormat { format, path } => "Unsupported file format: "@ + format@ + " (file: "@ + path@ + ")"@,
            FileIoError::FileSizeExceeded { size_bytes, limit_bytes } => "File size "@ + decimal(*size_bytes as nat) + " bytes exceeds limit "@ + decimal(*limit_bytes as nat) + " bytes"@,
            FileIoError::FileCorrupted { path, reason } => "File corruption detected in "@ + path@ + ": "@ + reason@,
            FileIoError::Io { reason } => "I/O error: "@ + reason@,
        }
    }

    /// The file error in words.
    pub fn message(&self) -> (text: String)
        ensures
            text@ == self.spec_message(),
    {
        match self {
            FileIoError::FileNotFound { path } => {
                let mut text = String::from_str("File not found: ");
                text.append(path.as_str());
                assert(text@ =~= self.spec_message());
                text
            },
            FileIoError::UnsupportedFormat { format, path } => {
                let mut text = String::from_str("Unsupported file format: ");
                text.append(format.as_str());
                text.append(" (file: ");
                text.append(path.as_str());
                text.append(")");
                assert(text@ =~= self.spec_message());
                text
            },
            FileIoError::FileSizeExceeded { size_bytes, limit_bytes } => {
                let mut text = String::from_str("File size ");
                push_decimal(&mut text, *size_bytes as u128);
                text.append(" bytes exceeds limit ");
                push_decimal(&mut text, *limit_bytes as u128);
                text.append(" bytes");
                assert(text@ =~= self.spec_message());
                text
            },
            FileIoError::FileCorrupted { path, reason } => {
                let mut text = String::from_str("File corruption detected in ");
                text.append(path.as_str());
                text.append(": ");
                text.append(reason.as_str());
                assert(text@ =~= self.spec_message());
                text
            },
            FileIoError::Io { reason } => {
                let mut text = String::from_str("I/O error: ");
                text.append(reason.as_str());
                assert(text@ =~= self.spec_message());
                text
            },
        }
    }
}

impl NetworkError {
    /// What `message` says.
    pub open spec fn spec_message(&self) -> Seq<char> {
        match self {
            NetworkError::DiscoveryFailed { reason } => "Device discovery failed: "@ + reason@,
            NetworkError::WebSocketError { reason } => "WebSocket error: "@ + reason@,
            NetworkError::InvalidMessage { reason } => "Invalid network message: "@ + reason@,
        }
    }

    /// The network error in words.
    pub fn message(&self) -> (text: String)
        ensures
            text@ == self.spec_message(),
    {
        match self {
            NetworkError::DiscoveryFailed { reason } => {
                let mut text = String::from_str("Device discovery failed: ");
                text.append(reason.as_str());
                assert(text@ =~= self.spec_message());
                text
            },
            NetworkError::WebSocketError { reason } => {
                let mut text = String::from_str("WebSocket error: ");
                text.append(reason.as_str());
                assert(text@ =~= self.spec_message());
                text
            },
            NetworkError::InvalidMessage { reason } => {
                let mut text = String::from_str("Invalid network message: ");
                text.append(reason.as_str());
                assert(text@ =~= self.spec_message());
                text
            },
        }
    }
}

impl ConfigError {
    /// What `message` says.
    pub open spec fn spec_message(&self) -> Seq<char> {
        match self {
            ConfigError::InvalidValue { key, reason } => "Invalid configuration value for '"@ + key@ + "': "@ + reason@,
            ConfigError::MissingRequired { key } => "Missing required configuration: "@ + key@,
            ConfigError::ParseError(detail) => "Failed to parse configuration: "@ + detail@,
        }
    }

    /// The configuration error in words.
    pub fn message(&self) -> (text: String)
        ensures
            text@ == self.spec_message(),
    {
        match self {
            ConfigError::InvalidValue { key, reason } => {
                let mut text = String::from_str("Invalid configuration value for '");
                text.append(key.as_str());
                text.append("': ");
                text.append(reason.as_str());
                assert(text@ =~= self.spec_message());
                text
            },
            ConfigError::MissingRequired { key } => {
                let mut text = String::from_str("Missing required configuration: ");
                text.append(key.as_str());
                assert(text@ =~= self.spec_message());
                text
            },
            ConfigError::ParseError(detail) => {
                let mut text = String::from_str("Failed to parse configuration: ");
                text.append(detail.as_str());
                assert(text@ =~= self.spec_message());
                text
            },
        }
    }
}

impl FfiError {
    /// What `message` says.
    pub open spec fn spec_message(&self) -> Seq<char> {
        match self {
            FfiError::NullPointer { context } => "Null pointer encountered in FFI call: "@ + context@,
            FfiError::InvalidBufferSize { expected, actual } => "Invalid buffer size: expected "@ + decimal(*expected as nat) + ", got "@ + decimal(*actual as nat),
            FfiError::CppException { message } => "C++ exception: "@ + message@,
            FfiError::AlignmentError { expected, actual } => "Memory alignment error: expected alignment "@ + decimal(*expected as nat) + ", got "@ + decimal(*actual as nat),
        }
    }

    /// The boundary error in words.
    pub fn message(&self) -> (text: String)
        ensures
            text@ == self.spec_message(),
    {
        match self {
            FfiError::NullPointer { context } => {
                let mut text = String::from_str("Null pointer encountered in FFI call: ");
                text.append(context.as_str());
                assert(text@ =~= self.spec_message());
                text
            },
            FfiError::InvalidBufferSize { expected, actual } => {
                let mut text = String::from_str("Invalid buffer size: expected ");
                push_decimal(&mut text, *expected as u128);
                text.append(", got ");
                push_decimal(&mut text, *actual as u128);
                assert(text@ =~= self.spec_message());
                text
            },
            FfiError::CppException { message } => {
                let mut text = String::from_str("C++ exception: ");
                text.append(message.as_str());
                assert(text@ =~= self.spec_message());
                text
            },
            FfiError::AlignmentError { expected, actual } => {
                let mut text = String::from_str("Memory alignment error: expected alignment ");
                push_decimal(&mut text, *expected as u128);
                text.append(", got ");
                push_decimal(&mut text, *actual as u128);
                assert(text@ =~= self.spec_message());
                text
            },
        }
    }
}

impl AudioEngineError {
    /// What `message` says.
    pub open spec fn spec_message(&self) -> Seq<char> {
        match self {
            AudioEngineError::NotInitialized => "Engine not initialized"@,
            AudioEngineError::AlreadyRunning => "Engine already running"@,
            AudioEngineError::ProcessingError(detail) => "Audio processing error: "@ + detail@,
            AudioEngineError::GpuInitFailed(detail) => "GPU initialization failed: "@ + detail@,
        }
    }

    /// The engine error in words.
    pub fn message(&self) -> (text: String)
        ensures
            text@ == self.spec_message(),
    {
        match self {
            AudioEngineError::NotInitialized => {
                let mut text = String::from_str("Engine not initialized");
                assert(text@ =~= self.spec_message());
                text
            },
            AudioEngineError::AlreadyRunning => {
                let mut text = String::from_str("Engine already running");
                assert(text@ =~= self.spec_message());
                text
            },
            AudioEngineError::ProcessingError(detail) => {
                let mut text = String::from_str("Audio processing error: ");
                text.append(detail.as_str());
                assert(text@ =~= self.spec_message());
                text
            },
            AudioEngineError::GpuInitFailed(detail) => {
                let mut text = String::from_str("GPU initialization failed: ");
                text.append(detail.as_str());
                assert(text@ =~= self.spec_message());
                text
            },
        }
    }
}

impl VortexError {
    /// What `message` says.
    pub open spec fn spec_message(&self) -> Seq<char> {
        match self {
            VortexError::Audio(e) => "Audio error: "@ + e.spec_message(),
            VortexError::Gpu(e) => "GPU error: "@ + e.spec_message(),
            VortexError::FileIo(e) => "File I/O error: "@ + e.spec_message(),
            VortexError::Network(e) => "Network error: "@ + e.spec_message(),
            VortexError::Config(e) => "Configuration error: "@ + e.spec_message(),
            VortexError::Ffi(e) => "FFI error: "@ + e.spec_message(),
        }
    }

    /// The error in words: the subsystem, then what the subsystem says.
    pub fn message(&self) -> (text: String)
        ensures
            text@ == self.spec_message(),
    {
        match self {
            VortexError::Audio(e) => String::from_str("Audio error: ").concat(e.message().as_str()),
            VortexError::Gpu(e) => String::from_str("GPU error: ").concat(e.message().as_str()),
            VortexError::FileIo(e) => String::from_str("File I/O error: ").concat(
                e.message().as_str(),
            ),
            VortexError::Network(e) => String::from_str("Network error: ").concat(
                e.message().as_str(),
            ),
            VortexError::Config(e) => String::from_str("Configuration error: ").concat(
                e.message().as_str(),
            ),
            VortexError::Ffi(e) => String::from_str("FFI error: ").concat(e.message().as_str()),
        }
    }

    /// The severity of the error: that of the subsystem's error.
    pub fn severity(&self) -> (severity: crate::error::ErrorSeverity)
        ensures
            severity == self.spec_severity(),
    {
        match self {
            VortexError::Audio(e) => e.severity(),
            VortexError::Gpu(e) => e.severity(),
            VortexError::FileIo(e) => e.severity(),
            VortexError::Network(e) => e.severity(),
            VortexError::Config(_) => crate::error::ErrorSeverity::Medium,
            VortexError::Ffi(_) => crate::error::ErrorSeverity::High,
        }
    }
}

} // verus!
