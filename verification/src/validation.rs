//! Checks at the boundary of the core: stream parameters, network messages,
//! file paths and resource limits.

use crate::error::{ConfigError, FileIoError, NetworkError, VortexError, VortexResult};
use crate::fileio::format_detector::{extension, extension_of, lowercase_of, to_lowercase};
use crate::lockfree::{is_power_of_two, power_of_two};
use crate::text::{decimal, push_decimal};
use vstd::prelude::*;
use vstd::string::StringExecFns;

verus! {

/// Upper bounds on what the core takes on.
#[derive(Debug, Clone, Copy, PartialEq, Eq, Structural)]
pub struct ResourceLimits {
    pub max_file_size_bytes: u64,
    /// Share of the device memory that may be asked for, in percent.
    pub max_gpu_memory_percent: u32,
    pub max_convolution_ir_samples: usize,
    pub max_filter_chain_length: usize,
    pub max_playlist_items: usize,
    pub max_websocket_clients: usize,
}

impl Default for ResourceLimits {
    /// Files of 2 GiB, 80 percent of the device memory, impulse responses of
    /// 16 Mi samples, 32 filters, 10 000 playlist items, 8 socket clients.
    fn default() -> (limits: Self)
        ensures
            limits.max_file_size_bytes == 2147483648,
            limits.max_gpu_memory_percent == 80,
            limits.max_convolution_ir_samples == 16777216,
            limits.max_filter_chain_length == 32,
            limits.max_playlist_items == 10000,
            limits.max_websocket_clients == 8,
    {
        ResourceLimits {
            max_file_size_bytes: 2147483648,
            max_gpu_memory_percent: 80,
            max_convolution_ir_samples: 16777216,
            max_filter_chain_length: 32,
            max_playlist_items: 10000,
            max_websocket_clients: 8,
        }
    }
}

/// Validator of the paths of audio files.
pub struct PathValidator {
    allowed_extensions: Vec<String>,
}

/// The extensions of the files that the core takes: lossless, lossy, DSD and
/// playlist formats.
pub open spec fn audio_extensions() -> Seq<Seq<char>> {
    seq![
        "wav"@,
        "flac"@,
        "alac"@,
        "ape"@,
        "wv"@,
        "mp3"@,
        "aac"@,
        "m4a"@,
        "ogg"@,
        "opus"@,
        "dsf"@,
        "dff"@,
        "dsd"@,
        "m3u"@,
        "m3u8"@,
        "pls"@,
    ]
}

/// A component `..` of `path` starts at index `i`: two dots, with the start
/// of the path or a `/` before them and the end of the path or a `/` after.
pub open spec fn parent_dir_at(path: Seq<char>, i: int) -> bool {
    &&& 0 <= i
    &&& i + 2 <= path.len()
    &&& path[i] == '.'
    &&& path[i + 1] == '.'
    &&& (i == 0 || path[i - 1] == '/')
    &&& (i + 2 == path.len() || path[i + 2] == '/')
}

/// Whether `path` climbs to a parent directory somewhere.
pub open spec fn has_parent_dir(path: Seq<char>) -> bool {
    exists|i: int| parent_dir_at(path, i)
}

/// The texts of a list of strings.
pub open spec fn texts(list: Seq<String>) -> Seq<Seq<char>> {
    Seq::new(list.len(), |i: int| list[i]@)
}

impl PathValidator {
    /// The allowed extensions, in lower case and without the dot.
    pub closed spec fn spec_allowed(&self) -> Seq<Seq<char>> {
        texts(self.allowed_extensions@)
    }

    /// A validator that allows the extensions of `audio_extensions`.
    pub fn new() -> (validator: Self)
        ensures
            validator.spec_allowed() == audio_extensions(),
    {
        let mut list: Vec<String> = Vec::new();
        list.push(String::from_str("wav"));
        list.push(String::from_str("flac"));
        list.push(String::from_str("alac"));
        list.push(String::from_str("ape"));
        list.push(String::from_str("wv"));
        list.push(String::from_str("mp3"));
        list.push(String::from_str("aac"));
        list.push(String::from_str("m4a"));
        list.push(String::from_str("ogg"));
        list.push(String::from_str("opus"));
        list.push(String::from_str("dsf"));
        list.push(String::from_str("dff"));
        list.push(String::from_str("dsd"));
        list.push(String::from_str("m3u"));
        list.push(String::from_str("m3u8"));
        list.push(String::from_str("pls"));
        assert(texts(list@) =~= audio_extensions());
        PathValidator { allowed_extensions: list }
    }

    pub fn allowed_extensions(&self) -> (list: &Vec<String>)
        ensures
            texts(list@) == self.spec_allowed(),
    {
        &self.allowed_extensions
    }

    /// Whether `ext` is one of the allowed extensions, letter for letter.
    pub fn is_allowed_extension(&self, ext: &str) -> (allowed: bool)
        ensures
            allowed == self.spec_allowed().contains(ext@),
    {
        let wanted = String::from_str(ext);
        let mut i: usize = 0;
        while i < self.allowed_extensions.len()
            invariant
                i <= self.allowed_extensions@.len(),
                wanted@ == ext@,
                forall|k: int| 0 <= k < i ==> self.spec_allowed()[k] != ext@,
            decreases self.allowed_extensions@.len() - i,
        {
            if self.allowed_extensions[i] == wanted {
                assert(self.spec_allowed()[i as int] == ext@);
                return true;
            }
            i += 1;
        }
        false
    }

    /// Whether `path` climbs to a parent directory somewhere.
    pub fn climbs(path: &str) -> (climbs: bool)
        ensures
            climbs == has_parent_dir(path@),
    {
        let n = path.unicode_len();
        if n < 2 {
            return false;
        }
        let mut i: usize = 0;
        while i < n - 1
            invariant
                n == path@.len(),
                n >= 2,
                i + 1 <= n,
                forall|k: int| 0 <= k < i ==> !parent_dir_at(path@, k),
            decreases n - i,
        {
            if path.get_char(i) == '.' && path.get_char(i + 1) == '.' && (i == 0 || path.get_char(
                i - 1,
            ) == '/') && (i + 2 == n || path.get_char(i + 2) == '/') {
                assert(parent_dir_at(path@, i as int));
                return true;
            }
            i += 1;
        }
        false
    }

    /// Whether a file of `size` bytes is within the limit of `limits`; it hands
    /// the size back.
    pub fn validate_file_size(&self, size: u64, limits: &ResourceLimits) -> (r: VortexResult<u64>)
        ensures
            size <= limits.max_file_size_bytes ==> r == Ok::<u64, VortexError>(size),
            size > limits.max_file_size_bytes ==> (r matches Err(
                VortexError::FileIo(FileIoError::FileSizeExceeded { size_bytes, limit_bytes }),
            ) && size_bytes == size && limit_bytes == limits.max_file_size_bytes),
    {
        if size > limits.max_file_size_bytes {
            return Err(
                VortexError::FileIo(
                    FileIoError::FileSizeExceeded {
                        size_bytes: size,
                        limit_bytes: limits.max_file_size_bytes,
                    },
                ),
            );
        }
        Ok(size)
    }

    /// Decides on an audio file from its path as given, its canonical path
    /// (if the file system could make one) and whether that is a regular file.
    ///
    /// A path that climbs to a parent directory, one without canonical form
    /// and one that is no regular file are reported as not found. A file
    /// without extension, or with one that is not allowed, is reported as
    /// unsupported. Any other is accepted, and its canonical path handed back.
    pub fn validate_audio_file(&self, path: &str, canonical: Option<&str>, is_file: bool) -> (r:
        VortexResult<String>)
        ensures
            has_parent_dir(path@) || canonical is None ==> (r matches Err(
                VortexError::FileIo(FileIoError::FileNotFound { path: p }),
            ) && p@ == path@),
            !has_parent_dir(path@) && canonical is Some ==> {
                let resolved = canonical.unwrap()@;
                if !is_file {
                    r matches Err(VortexError::FileIo(FileIoError::FileNotFound { path: p })) && p@
                        == resolved
                } else {
                    match extension_of(resolved) {
                        None => r matches Err(
                            VortexError::FileIo(FileIoError::UnsupportedFormat { format, path: p }),
                        ) && format@ == "unknown"@ && p@ == resolved,
                        Some(ext) => if self.spec_allowed().contains(lowercase_of(ext)) {
                            r matches Ok(accepted) && accepted@ == resolved
                        } else {
                            r matches Err(
                                VortexError::FileIo(
                                    FileIoError::UnsupportedFormat { format, path: p },
                                ),
                            ) && format@ == lowercase_of(ext) && p@ == resolved
                        },
                    }
                }
            },
    {
        if Self::climbs(path) {
            return Err(
                VortexError::FileIo(FileIoError::FileNotFound { path: String::from_str(path) }),
            );
        }
        let resolved = match canonical {
            Some(resolved) => resolved,
            None => {
                return Err(
                    VortexError::FileIo(
                        FileIoError::FileNotFound { path: String::from_str(path) },
                    ),
                );
            },
        };
        if !is_file {
            return Err(
                VortexError::FileIo(FileIoError::FileNotFound { path: String::from_str(resolved) }),
            );
        }
        match extension(resolved) {
            Some(ext) => {
                let lower = to_lowercase(ext);
                if self.is_allowed_extension(lower.as_str()) {
                    Ok(String::from_str(resolved))
                } else {
                    Err(
                        VortexError::FileIo(
                            FileIoError::UnsupportedFormat {
                                format: lower,
                                path: String::from_str(resolved),
                            },
                        ),
                    )
                }
            },
            None => Err(
                VortexError::FileIo(
                    FileIoError::UnsupportedFormat {
                        format: String::from_str("unknown"),
                        path: String::from_str(resolved),
                    },
                ),
            ),
        }
    }
}

/// Validator of the stream parameters that are whole numbers.
pub struct ParameterValidator;

/// The sample rates that the core runs at.
pub open spec fn is_valid_sample_rate(rate: u32) -> bool {
    rate == 44100 || rate == 48000 || rate == 88200 || rate == 96000 || rate == 176400 || rate
        == 192000 || rate == 352800 || rate == 384000
}

/// The block sizes that the core runs at: the powers of two from 64 to 8192.
pub open spec fn is_valid_buffer_size(size: usize) -> bool {
    64 <= size <= 8192 && is_power_of_two(size as int)
}

impl ParameterValidator {
    /// Hands `sample_rate` back if it is one of the eight rates of the core.
    pub fn validate_sample_rate(sample_rate: u32) -> (r: VortexResult<u32>)
        ensures
            is_valid_sample_rate(sample_rate) ==> r == Ok::<u32, VortexError>(sample_rate),
            !is_valid_sample_rate(sample_rate) ==> (r matches Err(
                VortexError::Config(ConfigError::InvalidValue { key, reason }),
            ) && key@ == "sample_rate"@ && reason@ == "Unsupported sample rate: "@ + decimal(
                sample_rate as nat,
            )),
    {
        if sample_rate == 44100 || sample_rate == 48000 || sample_rate == 88200 || sample_rate
            == 96000 || sample_rate == 176400 || sample_rate == 192000 || sample_rate == 352800
            || sample_rate == 384000 {
            Ok(sample_rate)
        } else {
            let mut reason = String::from_str("Unsupported sample rate: ");
            push_decimal(&mut reason, sample_rate as u128);
            Err(
                VortexError::Config(
                    ConfigError::InvalidValue { key: String::from_str("sample_rate"), reason },
                ),
            )
        }
    }

    /// Hands `buffer_size` back if it is a power of two from 64 to 8192. A
    /// size out of that range is told so; one in range that is no power of
    /// two is told that.
    pub fn validate_buffer_size(buffer_size: usize) -> (r: VortexResult<usize>)
        ensures
            is_valid_buffer_size(buffer_size) ==> r == Ok::<usize, VortexError>(buffer_size),
            !(64 <= buffer_size <= 8192) ==> (r matches Err(
                VortexError::Config(ConfigError::InvalidValue { key, reason }),
            ) && key@ == "buffer_size"@ && reason@
                == "Buffer size must be between 64 and 8192"@),
            64 <= buffer_size <= 8192 && !is_power_of_two(buffer_size as int) ==> (r matches Err(
                VortexError::Config(ConfigError::InvalidValue { key, reason }),
            ) && key@ == "buffer_size"@ && reason@ == "Buffer size must be a power of 2, got "@
                + decimal(buffer_size as nat)),
    {
        if buffer_size < 64 || buffer_size > 8192 {
            return Err(
                VortexError::Config(
                    ConfigError::InvalidValue {
                        key: String::from_str("buffer_size"),
                        reason: String::from_str("Buffer size must be between 64 and 8192"),
                    },
                ),
            );
        }
        if !power_of_two(buffer_size) {
            let mut reason = String::from_str("Buffer size must be a power of 2, got ");
            push_decimal(&mut reason, buffer_size as u128);
            return Err(
                VortexError::Config(
                    ConfigError::InvalidValue { key: String::from_str("buffer_size"), reason },
                ),
            );
        }
        Ok(buffer_size)
    }
}

/// What `serde_json` finds wrong with a text as JSON, in its own words, or
/// nothing where the text is one JSON value.
pub uninterp spec fn json_fault(text: Seq<u8>) -> Option<Seq<char>>;

/// Whether `char::is_alphanumeric` holds of `c`: whether Unicode counts it as
/// a letter or a number.
pub uninterp spec fn is_alphanumeric(c: char) -> bool;

/// `serde_json::from_slice` at the type `serde_json::Value`: parses `message`
/// as one JSON value and hands back the text of the error, if there is one.
#[verifier::external_body]
fn parse_json(message: &[u8]) -> (fault: Option<String>)
    ensures
        match fault {
            Some(text) => json_fault(message@) == Some(text@),
            None => json_fault(message@) is None,
        },
{
    match serde_json::from_slice::<serde_json::Value>(message) {
        Ok(_) => None,
        Err(e) => Some(e.to_string()),
    }
}

/// `char::is_alphanumeric`.
#[verifier::external_body]
fn char_is_alphanumeric(c: char) -> (yes: bool)
    ensures
        yes == is_alphanumeric(c),
{
    c.is_alphanumeric()
}

/// Validator of what arrives over the network.
pub struct NetworkValidator {
    max_message_size: usize,
    rate_limit_window_secs: u64,
    max_messages_per_window: usize,
}

impl Default for NetworkValidator {
    /// Messages of 64 KiB, 100 of them in a window of one second.
    fn default() -> (validator: Self)
        ensures
            validator.spec_max_message_size() == 65536,
            validator.spec_rate_limit_window_secs() == 1,
            validator.spec_max_messages_per_window() == 100,
    {
        NetworkValidator {
            max_message_size: 65536,
            rate_limit_window_secs: 1,
            max_messages_per_window: 100,
        }
    }
}

/// Whether `c` may stand in a device identifier.
pub open spec fn is_device_id_char(c: char) -> bool {
    is_alphanumeric(c) || c == '-' || c == '_'
}

impl NetworkValidator {
    pub closed spec fn spec_max_message_size(&self) -> usize {
        self.max_message_size
    }

    pub closed spec fn spec_rate_limit_window_secs(&self) -> u64 {
        self.rate_limit_window_secs
    }

    pub closed spec fn spec_max_messages_per_window(&self) -> usize {
        self.max_messages_per_window
    }

    pub fn max_message_size(&self) -> (n: usize)
        ensures
            n == self.spec_max_message_size(),
    {
        self.max_message_size
    }

    pub fn rate_limit_window_secs(&self) -> (n: u64)
        ensures
            n == self.spec_rate_limit_window_secs(),
    {
        self.rate_limit_window_secs
    }

    pub fn max_messages_per_window(&self) -> (n: usize)
        ensures
            n == self.spec_max_messages_per_window(),
    {
        self.max_messages_per_window
    }

    /// The verdict on a message of `length` bytes of which the parser said
    /// `fault`: a message over the size limit is refused for its size, one
    /// with a fault for the fault, and any other is accepted.
    pub fn judge_message(&self, length: usize, fault: Option<String>) -> (r: VortexResult<()>)
        ensures
            length > self.spec_max_message_size() ==> (r matches Err(
                VortexError::Network(NetworkError::InvalidMessage { reason }),
            ) && reason@ == "Message size "@ + decimal(length as nat) + " exceeds limit "@
                + decimal(self.spec_max_message_size() as nat)),
            length <= self.spec_max_message_size() ==> match fault {
                Some(text) => r matches Err(
                    VortexError::Network(NetworkError::InvalidMessage { reason }),
                ) && reason@ == "Invalid JSON: "@ + text@,
                None => r is Ok,
            },
    {
        if length > self.max_message_size {
            let mut reason = String::from_str("Message size ");
            push_decimal(&mut reason, length as u128);
            reason.append(" exceeds limit ");
            push_decimal(&mut reason, self.max_message_size as u128);
            return Err(VortexError::Network(NetworkError::InvalidMessage { reason }));
        }
        match fault {
            Some(text) => {
                let reason = String::from_str("Invalid JSON: ").concat(text.as_str());
                Err(VortexError::Network(NetworkError::InvalidMessage { reason }))
            },
            None => Ok(()),
        }
    }

    /// Accepts a message that is no longer than the limit and is one JSON value.
    pub fn validate_message(&self, message: &[u8]) -> (r: VortexResult<()>)
        ensures
            message@.len() > self.spec_max_message_size() ==> (r matches Err(
                VortexError::Network(NetworkError::InvalidMessage { reason }),
            ) && reason@ == "Message size "@ + decimal(message@.len()) + " exceeds limit "@
                + decimal(self.spec_max_message_size() as nat)),
            message@.len() <= self.spec_max_message_size() ==> match json_fault(message@) {
                Some(text) => r matches Err(
                    VortexError::Network(NetworkError::InvalidMessage { reason }),
                ) && reason@ == "Invalid JSON: "@ + text,
                None => r is Ok,
            },
    {
        if message.len() > self.max_message_size {
            return self.judge_message(message.len(), None);
        }
        let fault = parse_json(message);
        self.judge_message(message.len(), fault)
    }

    /// The verdict on a device identifier of which it is known whether all
    /// its characters are allowed: one of no byte or of more than 256 bytes
    /// is refused for its length, one with a character that is not allowed
    /// for that, and any other is accepted and a copy of it handed back.
    pub fn judge_device_id(device_id: &str, chars_allowed: bool) -> (r: VortexResult<String>)
        ensures
            !(0 < device_id.len() <= 256) ==> (r matches Err(
                VortexError::Network(NetworkError::InvalidMessage { reason }),
            ) && reason@ == "Invalid device ID length"@),
            0 < device_id.len() <= 256 && !chars_allowed ==> (r matches Err(
                VortexError::Network(NetworkError::InvalidMessage { reason }),
            ) && reason@ == "Device ID contains invalid characters"@),
            0 < device_id.len() <= 256 && chars_allowed ==> (r matches Ok(id) && id@
                == device_id@),
    {
        if device_id.len() == 0 || device_id.len() > 256 {
            return Err(
                VortexError::Network(
                    NetworkError::InvalidMessage {
                        reason: String::from_str("Invalid device ID length"),
                    },
                ),
            );
        }
        if !chars_allowed {
            return Err(
                VortexError::Network(
                    NetworkError::InvalidMessage {
                        reason: String::from_str("Device ID contains invalid characters"),
                    },
                ),
            );
        }
        Ok(String::from_str(device_id))
    }

    /// Whether every character of `text` may stand in a device identifier.
    fn all_device_id_chars(text: &str) -> (all: bool)
        ensures
            all == forall|i: int| 0 <= i < text@.len() ==> is_device_id_char(text@[i]),
    {
        let n = text.unicode_len();
        let mut i: usize = 0;
        while i < n
            invariant
                i <= n == text@.len(),
                forall|k: int| 0 <= k < i ==> is_device_id_char(text@[k]),
            decreases n - i,
        {
            let c = text.get_char(i);
            if !(char_is_alphanumeric(c) || c == '-' || c == '_') {
                return false;
            }
            i += 1;
        }
        true
    }

    /// Accepts a device identifier of 1 to 256 bytes made of letters,
    /// numbers, hyphens and underscores, and hands back a copy of it.
    pub fn validate_device_id(&self, device_id: &str) -> (r: VortexResult<String>)
        ensures
            !(0 < device_id.len() <= 256) ==> (r matches Err(
                VortexError::Network(NetworkError::InvalidMessage { reason }),
            ) && reason@ == "Invalid device ID length"@),
            0 < device_id.len() <= 256 ==> if forall|i: int|
                0 <= i < device_id@.len() ==> is_device_id_char(device_id@[i]) {
                r matches Ok(id) && id@ == device_id@
            } else {
                r matches Err(VortexError::Network(NetworkError::InvalidMessage { reason }))
                    && reason@ == "Device ID contains invalid characters"@
            },
    {
        if device_id.len() == 0 || device_id.len() > 256 {
            return Self::judge_device_id(device_id, false);
        }
        Self::judge_device_id(device_id, Self::all_device_id_chars(device_id))
    }
}

/// Holds counts against the resource limits.
pub struct ResourceLimitEnforcer {
    limits: ResourceLimits,
}

/// The largest request for device memory that the limits allow, in MiB: the
/// allowed percentage of the total, rounded down.
pub open spec fn gpu_memory_allowance(total_mb: usize, percent: u32) -> nat {
    ((total_mb as nat) * (percent as nat)) / 100
}

impl ResourceLimitEnforcer {
    pub closed spec fn spec_limits(&self) -> ResourceLimits {
        self.limits
    }

    pub fn new(limits: ResourceLimits) -> (enforcer: Self)
        ensures
            enforcer.spec_limits() == limits,
    {
        ResourceLimitEnforcer { limits }
    }

    /// Whether a chain of `current_count` filters can take one more.
    pub fn can_add_filter(&self, current_count: usize) -> (r: VortexResult<()>)
        ensures
            current_count < self.spec_limits().max_filter_chain_length ==> r is Ok,
            current_count >= self.spec_limits().max_filter_chain_length ==> (r matches Err(
                VortexError::Config(ConfigError::InvalidValue { key, reason }),
            ) && key@ == "filter_chain_length"@ && reason@ == "Filter chain length "@ + decimal(
                (current_count + 1) as nat,
            ) + " exceeds maximum "@ + decimal(
                self.spec_limits().max_filter_chain_length as nat,
            )),
    {
        if current_count >= self.limits.max_filter_chain_length {
            let mut reason = String::from_str("Filter chain length ");
            push_decimal(&mut reason, current_count as u128 + 1);
            reason.append(" exceeds maximum ");
            push_decimal(&mut reason, self.limits.max_filter_chain_length as u128);
            return Err(
                VortexError::Config(
                    ConfigError::InvalidValue {
                        key: String::from_str("filter_chain_length"),
                        reason,
                    },
                ),
            );
        }
        Ok(())
    }

    /// Whether a playlist of `current_count` items can take one more.
    pub fn can_add_to_playlist(&self, current_count: usize) -> (r: VortexResult<()>)
        ensures
            current_count < self.spec_limits().max_playlist_items ==> r is Ok,
            current_count >= self.spec_limits().max_playlist_items ==> (r matches Err(
                VortexError::Config(ConfigError::InvalidValue { key, reason }),
            ) && key@ == "playlist_size"@ && reason@ == "Playlist size "@ + decimal(
                (current_count + 1) as nat,
            ) + " exceeds maximum "@ + decimal(self.spec_limits().max_playlist_items as nat)),
    {
        if current_count >= self.limits.max_playlist_items {
            let mut reason = String::from_str("Playlist size ");
            push_decimal(&mut reason, current_count as u128 + 1);
            reason.append(" exceeds maximum ");
            push_decimal(&mut reason, self.limits.max_playlist_items as u128);
            return Err(
                VortexError::Config(
                    ConfigError::InvalidValue { key: String::from_str("playlist_size"), reason },
                ),
            );
        }
        Ok(())
    }

    /// Whether `requested_mb` MiB may be asked of a device with `total_mb` MiB.
    pub fn check_gpu_memory(&self, requested_mb: usize, total_mb: usize) -> (r: VortexResult<()>)
        ensures
            requested_mb <= gpu_memory_allowance(
                total_mb,
                self.spec_limits().max_gpu_memory_percent,
            ) ==> r is Ok,
            requested_mb > gpu_memory_allowance(
                total_mb,
                self.spec_limits().max_gpu_memory_percent,
            ) ==> (r matches Err(VortexError::Config(ConfigError::InvalidValue { key, reason }))
                && key@ == "gpu_memory"@ && reason@ == "Requested GPU memory "@ + decimal(
                requested_mb as nat,
            ) + " MB exceeds limit "@ + decimal(
                gpu_memory_allowance(total_mb, self.spec_limits().max_gpu_memory_percent),
            ) + " MB"@),
    {
        assert(total_mb * self.limits.max_gpu_memory_percent <= 0xffff_ffff_ffff_ffff * 0xffff_ffff)
            by (nonlinear_arith)
            requires
                0 <= total_mb <= 0xffff_ffff_ffff_ffff,
                0 <= self.limits.max_gpu_memory_percent <= 0xffff_ffff,
        ;
        let max_allowed: u128 = ((total_mb as u128) * (self.limits.max_gpu_memory_percent as u128))
            / 100;
        if (requested_mb as u128) > max_allowed {
            let mut reason = String::from_str("Requested GPU memory ");
            push_decimal(&mut reason, requested_mb as u128);
            reason.append(" MB exceeds limit ");
            push_decimal(&mut reason, max_allowed);
            reason.append(" MB");
            return Err(
                VortexError::Config(
                    ConfigError::InvalidValue { key: String::from_str("gpu_memory"), reason },
                ),
            );
        }
        Ok(())
    }

    pub fn limits(&self) -> (limits: &ResourceLimits)
        ensures
            *limits == self.spec_limits(),
    {
        &self.limits
    }
}

} // verus!
