// Signal generators and measures that the tests share.

fn generate_sine_wave(frequency: f32, duration_secs: f32, sample_rate: u32) -> Vec<f32> {
    let num_samples = (duration_secs * sample_rate as f32) as usize;
    let mut samples = Vec::with_capacity(num_samples);
    for i in 0..num_samples {
        let t = i as f32 / sample_rate as f32;
        samples.push((2.0 * std::f32::consts::PI * frequency * t).sin());
    }
    samples
}

fn generate_white_noise(duration_secs: f32, sample_rate: u32) -> Vec<f32> {
    let num_samples = (duration_secs * sample_rate as f32) as usize;
    let mut samples = Vec::with_capacity(num_samples);
    let mut seed: u32 = 12345;
    for _ in 0..num_samples {
        seed = seed.wrapping_mul(1103515245).wrapping_add(12345);
        samples.push((seed as f32 / u32::MAX as f32) * 2.0 - 1.0);
    }
    samples
}

fn generate_silence(duration_secs: f32, sample_rate: u32) -> Vec<f32> {
    vec![0.0; (duration_secs * sample_rate as f32) as usize]
}

fn generate_impulse(sample_rate: u32) -> Vec<f32> {
    let mut samples = vec![0.0; sample_rate as usize];
    samples[0] = 1.0;
    samples
}

fn calculate_rms(samples: &[f32]) -> f32 {
    if samples.is_empty() {
        return 0.0;
    }
    let sum_squares: f32 = samples.iter().map(|&s| s * s).sum();
    (sum_squares / samples.len() as f32).sqrt()
}

fn calculate_peak(samples: &[f32]) -> f32 {
    samples.iter().map(|&s| s.abs()).fold(0.0f32, f32::max)
}

fn buffers_are_similar(a: &[f32], b: &[f32], tolerance: f32) -> bool {
    a.len() == b.len() && a.iter().zip(b.iter()).all(|(x, y)| (x - y).abs() <= tolerance)
}

#[test]
fn test_sine_wave_generation() {
    let samples = generate_sine_wave(1000.0, 0.1, 48000);
    assert_eq!(samples.len(), 4800);
    let peak = calculate_peak(&samples);
    assert!(peak > 0.9 && peak < 1.1);
}

#[test]
fn test_white_noise_generation() {
    let samples = generate_white_noise(0.1, 48000);
    assert_eq!(samples.len(), 4800);
    let rms = calculate_rms(&samples);
    assert!(rms > 0.3 && rms < 0.7);
}

#[test]
fn test_silence_generation() {
    let samples = generate_silence(0.1, 48000);
    assert_eq!(samples.len(), 4800);
    assert_eq!(calculate_rms(&samples), 0.0);
}

#[test]
fn test_impulse_generation() {
    let samples = generate_impulse(48000);
    assert_eq!(samples.len(), 48000);
    assert_eq!(samples[0], 1.0);
    assert_eq!(calculate_rms(&samples[1..]), 0.0);
}

#[test]
fn test_rms_calculation() {
    let samples = vec![1.0, -1.0, 1.0, -1.0];
    let rms = calculate_rms(&samples);
    assert!((rms - 1.0).abs() < 0.01);
}

#[test]
fn test_peak_calculation() {
    let samples = vec![0.5, -0.8, 0.3, -0.9];
    let peak = calculate_peak(&samples);
    assert_eq!(peak, 0.9);
}

#[test]
fn test_buffer_similarity() {
    let a = vec![1.0, 2.0, 3.0];
    let b = vec![1.01, 2.01, 3.01];
    assert!(buffers_are_similar(&a, &b, 0.02));
    assert!(!buffers_are_similar(&a, &b, 0.005));
}
