use vortex_gpu_audio::audio::{AudioProcessor, ProcessingStats};
use vortex_gpu_audio::error::{AudioError, VortexError};

fn as_f64(numerator: u128, denominator: u128) -> f64 {
    numerator as f64 / denominator as f64
}

#[test]
fn processor_test_processor_creation() {
    let processor = AudioProcessor::new(48000, 512, 2);
    assert!(processor.is_ok());
    let processor = processor.unwrap();
    assert_eq!(processor.sample_rate(), 48000);
    assert_eq!(processor.buffer_size(), 512);
    assert_eq!(processor.channels(), 2);
}

#[test]
fn test_invalid_sample_rate() {
    let processor = AudioProcessor::new(0, 512, 2);
    assert!(processor.is_err());
    match processor {
        Err(VortexError::Audio(AudioError::InvalidConfig { reason })) => {
            assert_eq!(reason, "Sample rate must be > 0")
        }
        _ => panic!("wrong error"),
    }
}

#[test]
fn test_invalid_buffer_size() {
    let processor = AudioProcessor::new(48000, 500, 2);
    assert!(processor.is_err());

    let processor = AudioProcessor::new(48000, 0, 2);
    assert!(processor.is_err());
    match processor {
        Err(VortexError::Audio(AudioError::InvalidConfig { reason })) => {
            assert_eq!(reason, "Buffer size must be power of 2")
        }
        _ => panic!("wrong error"),
    }
}

#[test]
fn test_invalid_channels() {
    let processor = AudioProcessor::new(48000, 512, 0);
    assert!(processor.is_err());
    match processor {
        Err(VortexError::Audio(AudioError::InvalidConfig { reason })) => {
            assert_eq!(reason, "Channel count must be > 0")
        }
        _ => panic!("wrong error"),
    }
}

#[test]
fn test_stats_update() {
    let mut processor = AudioProcessor::new(48000, 512, 2).unwrap();

    processor.update_stats(1024);
    let stats = processor.get_stats();
    assert_eq!(stats.samples_processed, 1024);
}

#[test]
fn test_underrun_tracking() {
    let mut processor = AudioProcessor::new(48000, 512, 2).unwrap();

    processor.record_underrun();
    processor.record_underrun();
    processor.record_overrun();

    let stats = processor.get_stats();
    assert_eq!(stats.buffer_underruns, 2);
    assert_eq!(stats.buffer_overruns, 1);
}

#[test]
fn test_latency_tracking() {
    let mut processor = AudioProcessor::new(48000, 512, 2).unwrap();

    processor.record_latency(1000);
    processor.record_latency(2000);
    processor.record_latency(1500);

    let stats = processor.get_stats();
    assert_eq!(stats.peak_latency_us, 2000);
    assert_eq!(stats.average_latency_us.numerator, 4500);
    assert_eq!(stats.average_latency_us.denominator, 3);
    let average = as_f64(stats.average_latency_us.numerator, stats.average_latency_us.denominator);
    assert!((average - 1500.0).abs() < 1.0);
}

#[test]
fn test_buffer_duration() {
    let processor = AudioProcessor::new(48000, 512, 2).unwrap();
    let duration = processor.buffer_duration_us();
    assert_eq!(duration.numerator, 512_000_000);
    assert_eq!(duration.denominator, 48000);
    assert_eq!(duration.floor(), 10666);

    assert!((as_f64(duration.numerator, duration.denominator) - 10666.67).abs() < 1.0);
}

#[test]
fn test_stats_reset() {
    let mut processor = AudioProcessor::new(48000, 512, 2).unwrap();

    processor.update_stats(1024);
    processor.record_underrun();
    processor.record_latency(1000);

    processor.reset_stats();

    let stats = processor.get_stats();
    assert_eq!(stats.samples_processed, 0);
    assert_eq!(stats.buffer_underruns, 0);
    assert_eq!(stats.peak_latency_us, 0);
    assert_eq!(stats, ProcessingStats::default());
}

#[test]
fn test_cpu_usage_calculation() {
    let mut processor = AudioProcessor::new(48000, 512, 2).unwrap();
    let duration = processor.buffer_duration_us();
    let buffer_duration = as_f64(duration.numerator, duration.denominator);

    processor.record_latency((buffer_duration / 2.0) as u64);

    let stats = processor.get_stats();
    let usage = as_f64(stats.cpu_usage_percent.numerator, stats.cpu_usage_percent.denominator);
    assert!((usage - 50.0).abs() < 1.0);
    // 5333 us of 10666.67 us: 5333 * 48000 / (512 * 10) thousandths of a percent.
    assert_eq!(stats.cpu_usage_percent.numerator, 49996);
    assert_eq!(stats.cpu_usage_percent.denominator, 1000);
}

#[test]
fn cpu_usage_is_capped_at_100_percent() {
    let mut processor = AudioProcessor::new(48000, 64, 1).unwrap();
    processor.record_latency(1_000_000);
    let stats = processor.get_stats();
    assert_eq!(stats.cpu_usage_percent.numerator, 100_000);
}

#[test]
fn fresh_processor_reports_nothing() {
    let processor = AudioProcessor::new(44100, 64, 1).unwrap();
    let stats = processor.get_stats();
    assert_eq!(stats, ProcessingStats::default());
    assert_eq!(stats.average_latency_us.numerator, 0);
    assert_eq!(stats.average_latency_us.denominator, 1);
    assert_eq!(stats.cpu_usage_percent.numerator, 0);
}

#[test]
fn sample_counter_wraps() {
    let mut processor = AudioProcessor::new(44100, 64, 1).unwrap();
    processor.update_stats(usize::MAX);
    processor.update_stats(3);
    assert_eq!(processor.get_stats().samples_processed, (usize::MAX as u64).wrapping_add(3));
}
