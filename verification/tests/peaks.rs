use audio_processor::error::AudioError;
use audio_processor::peaks::{
    append_packet_peaks, peak_of_window, reduce_packet, window_size, INFINITY_BITS,
    MAGNITUDE_MASK, PEAKS_PER_SECOND, UNIT_BITS,
};

fn bits(samples: &[f32]) -> Vec<u32> {
    samples.iter().map(|s| s.to_bits()).collect()
}

/// The peaks of a packet of a stream that is fast enough to have windows.
fn reduced(samples: &[u32], sample_rate: u32) -> Vec<u32> {
    reduce_packet(samples, sample_rate).unwrap()
}

fn floats(peaks: &[u32]) -> Vec<f32> {
    peaks.iter().map(|p| f32::from_bits(*p)).collect()
}

/// The reduction as floating-point code does it: chunks, and per chunk the
/// fold of `max` over the absolute values, starting at zero.
fn reference_peaks(samples: &[f32], sample_rate: u32) -> Vec<f32> {
    let chunk_size = sample_rate as usize / 50;
    let mut peaks = Vec::new();
    for chunk in samples.chunks(chunk_size) {
        peaks.push(chunk.iter().map(|&s| s.abs()).fold(0.0f32, |a, b| a.max(b)));
    }
    peaks
}

/// A small generator of sample bit patterns of every kind.
fn pseudo_random_bits(n: usize, seed: u64) -> Vec<u32> {
    let mut state = seed;
    let mut out = Vec::with_capacity(n);
    for _ in 0..n {
        state = state.wrapping_mul(6364136223846793005).wrapping_add(1442695040888963407);
        out.push((state >> 32) as u32);
    }
    out
}

#[test]
fn constants_are_the_bit_patterns_they_name() {
    assert_eq!(PEAKS_PER_SECOND, 50);
    assert_eq!(UNIT_BITS, 1.0f32.to_bits());
    assert_eq!(INFINITY_BITS, f32::INFINITY.to_bits());
    assert_eq!(MAGNITUDE_MASK, !(-0.0f32).to_bits());
}

#[test]
fn window_size_is_a_fiftieth_of_the_sample_rate() {
    assert_eq!(window_size(44_100), 882);
    assert_eq!(window_size(48_000), 960);
    assert_eq!(window_size(8_000), 160);
    assert_eq!(window_size(50), 1);
    assert_eq!(window_size(99), 1);
    assert_eq!(window_size(49), 0);
    assert_eq!(window_size(0), 0);
    assert_eq!(window_size(u32::MAX), 85_899_345);
}

#[test]
fn peak_is_largest_absolute_value() {
    let samples = bits(&[0.25, -0.75, 0.5, -0.125]);
    assert_eq!(f32::from_bits(peak_of_window(&samples, 0, 4)), 0.75);
    assert_eq!(f32::from_bits(peak_of_window(&samples, 2, 4)), 0.5);
    assert_eq!(f32::from_bits(peak_of_window(&samples, 3, 4)), 0.125);
    assert_eq!(peak_of_window(&samples, 1, 1), 0);
    assert_eq!(peak_of_window(&[], 0, 0), 0);
}

#[test]
fn peak_ignores_nan_and_keeps_infinity() {
    let samples = bits(&[f32::NAN, 0.5, -f32::NAN, 0.25]);
    assert_eq!(f32::from_bits(peak_of_window(&samples, 0, 4)), 0.5);
    let only_nan = bits(&[f32::NAN, -f32::NAN]);
    assert_eq!(peak_of_window(&only_nan, 0, 2), 0);
    let with_inf = bits(&[0.5, f32::NEG_INFINITY, f32::NAN]);
    assert_eq!(peak_of_window(&with_inf, 0, 3), INFINITY_BITS);
    let zeros = bits(&[-0.0, 0.0]);
    assert_eq!(peak_of_window(&zeros, 0, 2), 0);
}

#[test]
fn packet_is_cut_into_windows_with_a_short_last_one() {
    // At 100 frames per second a window holds two samples.
    let samples = bits(&[0.1, -0.2, 0.3, -0.4, 0.5]);
    assert_eq!(floats(&reduced(&samples, 100)), vec![0.2, 0.4, 0.5]);
    let even = bits(&[0.1, -0.2, 0.3, -0.4]);
    assert_eq!(floats(&reduced(&even, 100)), vec![0.2, 0.4]);
    assert_eq!(reduced(&[], 100), Vec::<u32>::new());
    let one = bits(&[-0.9]);
    assert_eq!(floats(&reduced(&one, 44_100)), vec![0.9]);
}

#[test]
fn peak_count_is_samples_over_window_rounded_up() {
    let window = 882usize;
    for (n, expected) in
        [(0usize, 0usize), (1, 1), (881, 1), (882, 1), (883, 2), (1764, 2), (1765, 3), (88_200, 100), (88_201, 101)]
    {
        let samples = vec![0u32; n];
        assert_eq!(reduced(&samples, 44_100).len(), expected);
        assert_eq!(expected, (n + window - 1) / window);
    }
}

#[test]
fn append_keeps_what_was_there() {
    let mut peaks = bits(&[0.9, 0.8]);
    assert!(append_packet_peaks(&mut peaks, &bits(&[0.1, -0.2, 0.3]), 100).is_ok());
    assert_eq!(floats(&peaks), vec![0.9, 0.8, 0.2, 0.3]);
    assert!(append_packet_peaks(&mut peaks, &[], 100).is_ok());
    assert_eq!(floats(&peaks), vec![0.9, 0.8, 0.2, 0.3]);
    assert!(append_packet_peaks(&mut peaks, &bits(&[-0.7]), 50).is_ok());
    assert_eq!(floats(&peaks), vec![0.9, 0.8, 0.2, 0.3, 0.7]);
}

#[test]
fn stream_below_fifty_frames_per_second_is_refused() {
    for rate in [0u32, 1, 10, 49] {
        for samples in [bits(&[0.5, 0.25]), bits(&[])] {
            let error = reduce_packet(&samples, rate).unwrap_err();
            assert!(
                matches!(&error, AudioError::Processing(s) if s == "Sample rate is below 50 frames per second")
            );
            let mut peaks = bits(&[0.9]);
            let refused = append_packet_peaks(&mut peaks, &samples, rate);
            assert!(matches!(refused, Err(AudioError::Processing(_))));
            assert_eq!(floats(&peaks), vec![0.9]);
        }
    }
    assert_eq!(floats(&reduce_packet(&bits(&[0.5, 0.25]), 50).unwrap()), vec![0.5, 0.25]);
}

#[test]
fn windows_mix_the_channels() {
    // Stereo, interleaved: the window counts samples, not frames.
    let samples = bits(&[0.1, -0.9, 0.2, 0.3, 0.4, -0.5]);
    assert_eq!(floats(&reduced(&samples, 200)), vec![0.9, 0.5]);
}

#[test]
fn reduction_agrees_with_floating_point_on_every_kind_of_sample() {
    for (seed, n, rate) in [(1u64, 1000usize, 50u32), (2, 4096, 350), (3, 2501, 2_500), (4, 10_000, 44_100)] {
        let sample_bits = pseudo_random_bits(n, seed);
        let samples: Vec<f32> = sample_bits.iter().map(|b| f32::from_bits(*b)).collect();
        let expected = reference_peaks(&samples, rate);
        let got = reduced(&sample_bits, rate);
        assert_eq!(got.len(), expected.len());
        for (g, e) in got.iter().zip(expected.iter()) {
            assert_eq!(*g, e.to_bits());
        }
    }
}

#[test]
fn peaks_of_normalized_samples_lie_between_zero_and_one() {
    let n = 5000usize;
    let samples: Vec<f32> =
        (0..n).map(|i| ((i as f32) * 0.37).sin() * if i % 7 == 0 { 1.0 } else { 0.6 }).collect();
    let peaks = reduced(&bits(&samples), 8_000);
    assert_eq!(peaks.len(), (n + 159) / 160);
    for p in peaks {
        assert!(p <= UNIT_BITS);
        let value = f32::from_bits(p);
        assert!((0.0..=1.0).contains(&value));
    }
    let extremes = bits(&[1.0, -1.0, 0.0, -0.0]);
    assert_eq!(reduced(&extremes, 50), vec![UNIT_BITS, UNIT_BITS, 0, 0]);
}

#[test]
fn peaks_are_never_nan_nor_negative() {
    let sample_bits = pseudo_random_bits(3000, 99);
    for p in reduced(&sample_bits, 150) {
        assert!(p <= INFINITY_BITS);
        assert!(!f32::from_bits(p).is_nan());
        assert!(f32::from_bits(p) >= 0.0);
    }
}
