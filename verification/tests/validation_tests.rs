use vortex_gpu_audio::error::{ConfigError, FileIoError, NetworkError, VortexError};
use vortex_gpu_audio::validation::{
    NetworkValidator, ParameterValidator, PathValidator, ResourceLimitEnforcer, ResourceLimits,
};

fn config_reason<T>(r: Result<T, VortexError>) -> (String, String) {
    match r {
        Err(VortexError::Config(ConfigError::InvalidValue { key, reason })) => (key, reason),
        _ => panic!("no configuration error"),
    }
}

fn network_reason<T>(r: Result<T, VortexError>) -> String {
    match r {
        Err(VortexError::Network(NetworkError::InvalidMessage { reason })) => reason,
        _ => panic!("no network error"),
    }
}

#[test]
fn test_sample_rate_validation() {
    assert!(ParameterValidator::validate_sample_rate(48000).is_ok());
    assert!(ParameterValidator::validate_sample_rate(22050).is_err());
    assert_eq!(
        config_reason(ParameterValidator::validate_sample_rate(22050)),
        ("sample_rate".to_string(), "Unsupported sample rate: 22050".to_string())
    );
    assert_eq!(
        config_reason(ParameterValidator::validate_sample_rate(0)).1,
        "Unsupported sample rate: 0"
    );
}

#[test]
fn test_buffer_size_validation() {
    assert!(ParameterValidator::validate_buffer_size(512).is_ok());
    assert!(ParameterValidator::validate_buffer_size(1000).is_err());
    assert!(ParameterValidator::validate_buffer_size(32).is_err());
    assert_eq!(
        config_reason(ParameterValidator::validate_buffer_size(1000)),
        ("buffer_size".to_string(), "Buffer size must be a power of 2, got 1000".to_string())
    );
    assert_eq!(
        config_reason(ParameterValidator::validate_buffer_size(32)).1,
        "Buffer size must be between 64 and 8192"
    );
}

#[test]
fn test_resource_limits() {
    let limits = ResourceLimits::default();
    let enforcer = ResourceLimitEnforcer::new(limits);

    assert!(enforcer.can_add_filter(0).is_ok());
    assert!(enforcer.can_add_filter(32).is_err());

    assert!(enforcer.can_add_to_playlist(0).is_ok());
    assert!(enforcer.can_add_to_playlist(10_000).is_err());
}

#[test]
fn limit_messages_name_the_numbers() {
    let enforcer = ResourceLimitEnforcer::new(ResourceLimits::default());
    assert_eq!(
        config_reason(enforcer.can_add_filter(32)),
        ("filter_chain_length".to_string(), "Filter chain length 33 exceeds maximum 32".to_string())
    );
    assert_eq!(
        config_reason(enforcer.can_add_to_playlist(12_345)),
        ("playlist_size".to_string(), "Playlist size 12346 exceeds maximum 10000".to_string())
    );
    assert_eq!(
        config_reason(enforcer.check_gpu_memory(900, 1000)),
        ("gpu_memory".to_string(), "Requested GPU memory 900 MB exceeds limit 800 MB".to_string())
    );
    assert_eq!(
        config_reason(enforcer.can_add_filter(usize::MAX)).1,
        format!("Filter chain length {} exceeds maximum 32", usize::MAX as u128 + 1)
    );
}

#[test]
fn test_network_validation() {
    let validator = NetworkValidator::default();

    let valid_json = b"{\"type\": \"test\"}";
    assert!(validator.validate_message(valid_json).is_ok());

    let invalid_json = b"not json";
    assert!(validator.validate_message(invalid_json).is_err());

    assert!(validator.validate_device_id("device-123").is_ok());
    assert!(validator.validate_device_id("dev@ice").is_err());
}

#[test]
fn test_all_sample_rates() {
    let valid_rates = vec![44100, 48000, 88200, 96000, 176400, 192000, 352800, 384000];
    for rate in valid_rates {
        assert_eq!(ParameterValidator::validate_sample_rate(rate).unwrap(), rate);
    }

    let invalid_rates = vec![8000, 22050, 32000, 128000, 500000];
    for rate in invalid_rates {
        assert!(ParameterValidator::validate_sample_rate(rate).is_err());
    }
}

#[test]
fn test_buffer_size_power_of_two() {
    let valid_sizes = vec![64, 128, 256, 512, 1024, 2048, 4096, 8192];
    for size in valid_sizes {
        assert_eq!(ParameterValidator::validate_buffer_size(size).unwrap(), size);
    }

    let invalid_sizes = vec![63, 100, 1000, 3000, 10000];
    for size in invalid_sizes {
        assert!(ParameterValidator::validate_buffer_size(size).is_err());
    }
}

#[test]
fn test_buffer_size_range() {
    assert!(ParameterValidator::validate_buffer_size(32).is_err());
    assert!(ParameterValidator::validate_buffer_size(64).is_ok());
    assert!(ParameterValidator::validate_buffer_size(8192).is_ok());
    assert!(ParameterValidator::validate_buffer_size(16384).is_err());
}

#[test]
fn test_resource_limits_default_values() {
    let limits = ResourceLimits::default();
    assert_eq!(limits.max_file_size_bytes, 2 * 1024 * 1024 * 1024);
    assert_eq!(limits.max_gpu_memory_percent, 80);
    assert_eq!(limits.max_convolution_ir_samples, 16 * 1024 * 1024);
    assert_eq!(limits.max_filter_chain_length, 32);
    assert_eq!(limits.max_playlist_items, 10_000);
    assert_eq!(limits.max_websocket_clients, 8);
}

#[test]
fn test_filter_chain_limit_enforcement() {
    let limits = ResourceLimits::default();
    let enforcer = ResourceLimitEnforcer::new(limits);

    for i in 0..32 {
        assert!(enforcer.can_add_filter(i).is_ok());
    }

    assert!(enforcer.can_add_filter(32).is_err());
    assert!(enforcer.can_add_filter(100).is_err());
}

#[test]
fn test_playlist_limit_enforcement() {
    let limits = ResourceLimits::default();
    let enforcer = ResourceLimitEnforcer::new(limits);

    assert!(enforcer.can_add_to_playlist(0).is_ok());
    assert!(enforcer.can_add_to_playlist(5000).is_ok());
    assert!(enforcer.can_add_to_playlist(9999).is_ok());
    assert!(enforcer.can_add_to_playlist(10_000).is_err());
}

#[test]
fn test_gpu_memory_limit_enforcement() {
    let limits = ResourceLimits::default();
    let enforcer = ResourceLimitEnforcer::new(limits);

    assert!(enforcer.check_gpu_memory(500, 1000).is_ok());
    assert!(enforcer.check_gpu_memory(800, 1000).is_ok());
    assert!(enforcer.check_gpu_memory(900, 1000).is_err());
    assert!(enforcer.check_gpu_memory(801, 1000).is_err());
    // 80 percent of 1001 MiB is 800.8: rounded down.
    assert!(enforcer.check_gpu_memory(800, 1001).is_ok());
    assert!(enforcer.check_gpu_memory(801, 1001).is_err());
}

#[test]
fn file_size_limit() {
    let enforcer = ResourceLimitEnforcer::new(ResourceLimits::default());
    let validator = PathValidator::new();
    assert_eq!(enforcer.limits().max_file_size_bytes, 2147483648);
    assert_eq!(validator.validate_file_size(0, enforcer.limits()).unwrap(), 0);
    assert_eq!(validator.validate_file_size(2147483648, enforcer.limits()).unwrap(), 2147483648);
    let small = ResourceLimits { max_file_size_bytes: 10, ..ResourceLimits::default() };
    assert!(validator.validate_file_size(10, &small).is_ok());
    assert!(validator.validate_file_size(11, &small).is_err());
    match validator.validate_file_size(2147483649, enforcer.limits()) {
        Err(VortexError::FileIo(FileIoError::FileSizeExceeded { size_bytes, limit_bytes })) => {
            assert_eq!(size_bytes, 2147483649);
            assert_eq!(limit_bytes, 2147483648);
        }
        _ => panic!("size accepted"),
    }
}

#[test]
fn test_network_message_size_limit() {
    let validator = NetworkValidator::default();

    let small_json = b"{\"test\": \"data\"}";
    assert!(validator.validate_message(small_json).is_ok());

    let large_message = vec![b'a'; 128 * 1024];
    assert!(validator.validate_message(&large_message).is_err());
    assert_eq!(
        network_reason(validator.validate_message(&large_message)),
        "Message size 131072 exceeds limit 65536"
    );
}

#[test]
fn test_device_id_validation() {
    let validator = NetworkValidator::default();

    assert!(validator.validate_device_id("device123").is_ok());
    assert!(validator.validate_device_id("device-123").is_ok());
    assert!(validator.validate_device_id("device_123").is_ok());
    assert_eq!(validator.validate_device_id("DEV-001").unwrap(), "DEV-001");

    assert!(validator.validate_device_id("").is_err());
    assert!(validator.validate_device_id("dev@ice").is_err());
    assert!(validator.validate_device_id("dev ice").is_err());
    assert!(validator.validate_device_id("dev/ice").is_err());

    let long_id = "a".repeat(300);
    assert!(validator.validate_device_id(&long_id).is_err());
    assert_eq!(network_reason(validator.validate_device_id(&long_id)), "Invalid device ID length");
    assert_eq!(network_reason(validator.validate_device_id("")), "Invalid device ID length");
    assert_eq!(
        network_reason(validator.validate_device_id("dev@ice")),
        "Device ID contains invalid characters"
    );
    assert!(validator.validate_device_id(&"a".repeat(256)).is_ok());
    assert!(validator.validate_device_id(&"a".repeat(257)).is_err());
    // Letters and numbers of any script count; the length is in bytes.
    assert_eq!(validator.validate_device_id("gerät-٣").unwrap(), "gerät-٣");
    assert!(validator.validate_device_id(&"ä".repeat(128)).is_ok());
    assert!(validator.validate_device_id(&"ä".repeat(129)).is_err());
}

#[test]
fn test_path_validator_allowed_extensions() {
    let validator = PathValidator::new();

    let expected_extensions = vec![
        "wav", "flac", "alac", "ape", "wv", "mp3", "aac", "m4a", "ogg", "opus", "dsf", "dff",
        "dsd", "m3u", "m3u8", "pls",
    ];

    for ext in expected_extensions {
        assert!(validator.allowed_extensions().contains(&ext.to_string()));
        assert!(validator.is_allowed_extension(ext));
    }
    assert_eq!(validator.allowed_extensions().len(), 16);
    assert!(!validator.is_allowed_extension("exe"));
    assert!(!validator.is_allowed_extension("WAV"));
    assert!(!validator.is_allowed_extension(""));
}

#[test]
fn paths_that_climb_are_found() {
    assert!(PathValidator::climbs(".."));
    assert!(PathValidator::climbs("../a.wav"));
    assert!(PathValidator::climbs("a/../b.wav"));
    assert!(PathValidator::climbs("/music/.."));
    assert!(!PathValidator::climbs("a..b/c.wav"));
    assert!(!PathValidator::climbs("a/..b/c.wav"));
    assert!(!PathValidator::climbs("a/b../c.wav"));
    assert!(!PathValidator::climbs("./a.wav"));
    assert!(!PathValidator::climbs(""));
    assert!(!PathValidator::climbs("."));
    assert!(!PathValidator::climbs("..."));
}

#[test]
fn audio_files_are_judged_in_order() {
    let validator = PathValidator::new();
    assert_eq!(
        validator.validate_audio_file("a.FLAC", Some("/music/a.FLAC"), true).unwrap(),
        "/music/a.FLAC"
    );
    match validator.validate_audio_file("../a.flac", Some("/a.flac"), true) {
        Err(VortexError::FileIo(FileIoError::FileNotFound { path })) => assert_eq!(path, "../a.flac"),
        _ => panic!("accepted"),
    }
    match validator.validate_audio_file("a.flac", None, false) {
        Err(VortexError::FileIo(FileIoError::FileNotFound { path })) => assert_eq!(path, "a.flac"),
        _ => panic!("accepted"),
    }
    match validator.validate_audio_file("a.flac", Some("/music/a.flac"), false) {
        Err(VortexError::FileIo(FileIoError::FileNotFound { path })) => {
            assert_eq!(path, "/music/a.flac")
        }
        _ => panic!("accepted"),
    }
    match validator.validate_audio_file("a.EXE", Some("/music/a.EXE"), true) {
        Err(VortexError::FileIo(FileIoError::UnsupportedFormat { format, path })) => {
            assert_eq!(format, "exe");
            assert_eq!(path, "/music/a.EXE");
        }
        _ => panic!("accepted"),
    }
    match validator.validate_audio_file("song", Some("/music.d/song"), true) {
        Err(VortexError::FileIo(FileIoError::UnsupportedFormat { format, path })) => {
            assert_eq!(format, "unknown");
            assert_eq!(path, "/music.d/song");
        }
        _ => panic!("accepted"),
    }
}

#[test]
fn test_network_validator_rate_limits() {
    let validator = NetworkValidator::default();
    assert_eq!(validator.max_message_size(), 64 * 1024);
    assert_eq!(validator.rate_limit_window_secs(), 1);
    assert_eq!(validator.max_messages_per_window(), 100);
}

#[test]
fn test_json_parsing_in_network_validator() {
    let validator = NetworkValidator::default();

    assert!(validator.validate_message(b"{}").is_ok());
    assert!(validator.validate_message(b"{\"key\": \"value\"}").is_ok());
    assert!(validator.validate_message(b"[1, 2, 3]").is_ok());

    assert!(validator.validate_message(b"{").is_err());
    assert!(validator.validate_message(b"not json at all").is_err());
    assert!(validator.validate_message(b"{\"key\": }").is_err());
    assert!(network_reason(validator.validate_message(b"{")).starts_with("Invalid JSON: "));
}

#[test]
fn a_message_is_judged_by_its_size_first() {
    let validator = NetworkValidator::default();
    assert!(validator.judge_message(65536, None).is_ok());
    assert_eq!(
        network_reason(validator.judge_message(65537, None)),
        "Message size 65537 exceeds limit 65536"
    );
    assert_eq!(
        network_reason(validator.judge_message(65537, Some("x".to_string()))),
        "Message size 65537 exceeds limit 65536"
    );
    assert_eq!(
        network_reason(validator.judge_message(10, Some("expected value".to_string()))),
        "Invalid JSON: expected value"
    );
}

#[test]
fn a_device_id_is_judged_by_its_length_first() {
    assert_eq!(NetworkValidator::judge_device_id("abc", true).unwrap(), "abc");
    assert_eq!(
        network_reason(NetworkValidator::judge_device_id("abc", false)),
        "Device ID contains invalid characters"
    );
    assert_eq!(
        network_reason(NetworkValidator::judge_device_id("", true)),
        "Invalid device ID length"
    );
    assert_eq!(
        network_reason(NetworkValidator::judge_device_id(&"x".repeat(257), false)),
        "Invalid device ID length"
    );
}
