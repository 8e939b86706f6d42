use vortex_gpu_audio::audio::dsp::{Convolver, DsdProcessor, DsdRate, Resampler, ResamplerQuality};
use vortex_gpu_audio::error::{AudioError, VortexError};

#[test]
fn test_dsd_rate() {
    assert_eq!(DsdRate::Dsd64.sample_rate(), 2822400);
    assert_eq!(DsdRate::Dsd128.sample_rate(), 5644800);
}

#[test]
fn dsd_rates_double() {
    assert_eq!(DsdRate::Dsd256.sample_rate(), 11289600);
    assert_eq!(DsdRate::Dsd512.sample_rate(), 22579200);
    assert_eq!(DsdRate::Dsd1024.sample_rate(), 45158400);
}

#[test]
fn test_decimation_factor() {
    let rate = DsdRate::Dsd64;
    assert_eq!(rate.decimation_factor(44100), 64);
}

#[test]
fn decimation_factor_rounds_down() {
    assert_eq!(DsdRate::Dsd64.decimation_factor(48000), 58);
    assert_eq!(DsdRate::Dsd64.decimation_factor(2822401), 0);
}

#[test]
fn test_quality_levels() {
    assert_eq!(ResamplerQuality::Draft.filter_length(), 16);
    assert_eq!(ResamplerQuality::Standard.filter_length(), 64);
    assert_eq!(ResamplerQuality::High.filter_length(), 256);
    assert_eq!(ResamplerQuality::Maximum.filter_length(), 1024);
}

#[test]
fn quality_stopband_targets() {
    assert_eq!(ResamplerQuality::Draft.stopband_db(), 60);
    assert_eq!(ResamplerQuality::Standard.stopband_db(), 96);
    assert_eq!(ResamplerQuality::High.stopband_db(), 120);
    assert_eq!(ResamplerQuality::Maximum.stopband_db(), 150);
}

fn audio_reason<T>(r: Result<T, VortexError>) -> String {
    match r {
        Err(VortexError::Audio(AudioError::InvalidConfig { reason })) => reason,
        _ => panic!("no audio error"),
    }
}

#[test]
fn dsd_processor_test_processor_creation() {
    let processor = DsdProcessor::new(DsdRate::Dsd64, 44100);
    assert!(processor.is_ok());
    assert_eq!(processor.unwrap().decimation_factor(), 64);
}

#[test]
fn dsd_processor_refuses_rates_without_a_window() {
    assert_eq!(
        audio_reason(DsdProcessor::new(DsdRate::Dsd64, 0)),
        "Target rate must be > 0 and no more than the DSD rate"
    );
    assert!(DsdProcessor::new(DsdRate::Dsd64, 2822401).is_err());
    assert_eq!(DsdProcessor::new(DsdRate::Dsd64, 2822400).unwrap().decimation_factor(), 1);
}

#[test]
fn test_basic_processing() {
    let processor = DsdProcessor::new(DsdRate::Dsd64, 44100).unwrap();
    let dsd_input = vec![0xFF; 128];
    let mut pcm_output = vec![0; 16];

    let result = processor.process(&dsd_input, &mut pcm_output);
    assert!(result.is_ok());
    assert_eq!(result.unwrap(), 16);
    // All ones: every window of 64 bits sums to 64, a mean of 1.
    assert_eq!(pcm_output, vec![64; 16]);
}

#[test]
fn test_dsd_processing_integration() {
    let mut processor = DsdProcessor::new(DsdRate::Dsd64, 44100).unwrap();

    let dsd_input = vec![0xFF; 1024];
    let mut pcm_output = vec![0; 1024];

    let samples = processor.process(&dsd_input, &mut pcm_output).unwrap();

    assert!(samples > 0);
    assert!(samples <= pcm_output.len());
    assert_eq!(samples, 128);
    assert_eq!(pcm_output[127], 64);
    assert_eq!(pcm_output[128], 0);

    processor.reset();
    assert_eq!(processor.decimation_factor(), 64);
}

#[test]
fn dsd_windows_sum_their_bits_lowest_first() {
    // A factor of 2822400 / 705600 = 4: two windows in a byte.
    let processor = DsdProcessor::new(DsdRate::Dsd64, 705600).unwrap();
    assert_eq!(processor.decimation_factor(), 4);
    let mut out = vec![9; 5];
    // 0x0f: the low four bits are ones, the high four are zeros.
    // 0xa7 = 1010_0111: low window 0111 has three ones, high window 1010 two.
    let n = processor.process(&[0x0f, 0xa7], &mut out).unwrap();
    assert_eq!(n, 4);
    assert_eq!(out, vec![4, -4, 2, 0, 9]);
    let mut short = vec![9; 1];
    assert_eq!(processor.process(&[0x0f, 0xa7], &mut short).unwrap(), 1);
    assert_eq!(short, vec![4]);
    let mut none = vec![9; 2];
    assert_eq!(processor.process(&[], &mut none).unwrap(), 0);
    assert_eq!(none, vec![9, 9]);
}

#[test]
fn dsd_windows_cross_byte_borders() {
    // A factor of 58 at 48 kHz: 128 bytes hold 17 whole windows.
    let processor = DsdProcessor::new(DsdRate::Dsd64, 48000).unwrap();
    assert_eq!(processor.decimation_factor(), 58);
    let mut out = vec![0; 32];
    let n = processor.process(&vec![0x55; 128], &mut out).unwrap();
    assert_eq!(n, 17);
    assert!(out[..17].iter().all(|&s| s == 0));
    let n = processor.process(&vec![0x00; 128], &mut out).unwrap();
    assert_eq!(n, 17);
    assert!(out[..17].iter().all(|&s| s == -58));
}

#[test]
fn test_convolver_creation() {
    let ir = vec![1.0, 0.5, 0.25];
    let convolver = Convolver::new(ir, 512);
    assert!(convolver.is_ok());
    let convolver = convolver.unwrap();
    assert_eq!(convolver.ir_length(), 3);
    assert_eq!(convolver.partition_size(), 512);
    assert_eq!(convolver.num_partitions(), 1);
    assert_eq!(convolver.ir(), &[1.0, 0.5, 0.25]);
}

#[test]
fn test_invalid_partition_size() {
    let ir = vec![1.0];
    let convolver = Convolver::new(ir, 500);
    assert!(convolver.is_err());
    assert_eq!(audio_reason(convolver), "Partition size must be power of 2");
    assert!(Convolver::new(vec![1.0], 0).is_err());
}

#[test]
fn test_empty_ir() {
    let ir: Vec<f32> = vec![];
    let convolver = Convolver::new(ir, 512);
    assert!(convolver.is_err());
    assert_eq!(audio_reason(convolver), "Impulse response cannot be empty");
    assert_eq!(
        audio_reason(Convolver::new(Vec::<f32>::new(), 500)),
        "Impulse response cannot be empty"
    );
}

#[test]
fn convolver_partitions_cover_the_impulse_response() {
    let mut convolver = Convolver::new(vec![0i32; 16384], 2048).unwrap();
    assert_eq!(convolver.num_partitions(), 8);
    convolver.set_ir(vec![1; 16385]).unwrap();
    assert_eq!(convolver.num_partitions(), 9);
    assert_eq!(convolver.ir_length(), 16385);
    assert_eq!(audio_reason(convolver.set_ir(vec![])), "Impulse response cannot be empty");
    assert_eq!(convolver.ir_length(), 16385);
    assert_eq!(convolver.partition_size(), 2048);
    let one = Convolver::new(vec![7u8, 8, 9], 1).unwrap();
    assert_eq!(one.num_partitions(), 3);
}

#[test]
fn test_resampler_creation() {
    let resampler = Resampler::new(44100, 48000, ResamplerQuality::Standard);
    assert!(resampler.is_ok());
    let resampler = resampler.unwrap();
    assert_eq!(resampler.input_rate(), 44100);
    assert_eq!(resampler.output_rate(), 48000);
    assert_eq!(resampler.quality(), ResamplerQuality::Standard);
    assert!(!resampler.is_identity());
}

#[test]
fn test_invalid_rates() {
    let resampler = Resampler::new(0, 48000, ResamplerQuality::Standard);
    assert!(resampler.is_err());
    assert_eq!(audio_reason(resampler), "Sample rates must be > 0");
    assert!(Resampler::new(48000, 0, ResamplerQuality::Draft).is_err());
}

#[test]
fn test_ratio_calculation() {
    let resampler = Resampler::new(44100, 48000, ResamplerQuality::Standard).unwrap();
    let expected_ratio = 48000.0 / 44100.0;
    let ratio = resampler.ratio();
    assert_eq!(ratio.numerator, 48000);
    assert_eq!(ratio.denominator, 44100);
    assert!((ratio.numerator as f64 / ratio.denominator as f64 - expected_ratio).abs() < 0.0001);
    assert!(Resampler::new(48000, 48000, ResamplerQuality::High).unwrap().is_identity());
}
