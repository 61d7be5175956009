use audio_processor::decode::{
    open_track, process_audio_frames, DecodeAction, DecodeEvent, DecodeStage, DecodeState,
};
use audio_processor::error::{AudioError, ErrorKind};
use audio_processor::waveform::{StreamDuration, WaveformData};

fn bits(samples: &[f32]) -> Vec<u32> {
    samples.iter().map(|s| s.to_bits()).collect()
}

fn floats(peaks: &[u32]) -> Vec<f32> {
    peaks.iter().map(|p| f32::from_bits(*p)).collect()
}

fn opened(sample_rate: u32, n_frames: u64) -> DecodeEvent {
    DecodeEvent::TrackOpened {
        decoder_error: None,
        sample_rate: Some(sample_rate),
        n_frames: Some(n_frames),
    }
}

/// A state that is decoding a stream at `sample_rate`.
fn decoding(sample_rate: u32, n_frames: u64) -> DecodeState {
    DecodeState::new()
        .step(DecodeEvent::Probed { has_default_track: true })
        .step(opened(sample_rate, n_frames))
}

fn expect_failure(state: DecodeState) -> (DecodeStage, AudioError) {
    match state {
        DecodeState::Failed { stage, error } => (stage, error),
        other => panic!("expected a failure, got {:?}", other),
    }
}

fn expect_summary(state: DecodeState) -> WaveformData {
    match state.outcome() {
        Some(Ok(summary)) => summary,
        other => panic!("expected a summary, got {:?}", other),
    }
}

#[test]
fn analysis_starts_probing() {
    let state = DecodeState::new();
    assert!(matches!(state, DecodeState::Probing));
    assert_eq!(state.stage(), DecodeStage::Probing);
    assert_eq!(state.action(), DecodeAction::Probe);
    assert!(state.outcome().is_none());
}

#[test]
fn stages_follow_one_another() {
    let state = DecodeState::new().step(DecodeEvent::Probed { has_default_track: true });
    assert_eq!(state.stage(), DecodeStage::TrackSelected);
    assert_eq!(state.action(), DecodeAction::OpenTrack);
    let state = state.step(opened(44_100, 88_200));
    assert_eq!(state.stage(), DecodeStage::Decoding);
    assert_eq!(state.action(), DecodeAction::ReadPacket);
    let state = state.step(DecodeEvent::Packet { samples: bits(&[0.5, -0.25]) });
    assert_eq!(state.stage(), DecodeStage::Decoding);
    let state = state.step(DecodeEvent::EndOfStream);
    assert_eq!(state.stage(), DecodeStage::Complete);
    assert_eq!(state.action(), DecodeAction::Stop);
}

#[test]
fn probe_failure_is_invalid_audio() {
    let state = DecodeState::new().step(DecodeEvent::ProbeFailed { reason: "unsupported".to_string() });
    assert_eq!(state.action(), DecodeAction::Stop);
    let (stage, error) = expect_failure(state);
    assert_eq!(stage, DecodeStage::Probing);
    assert!(matches!(&error, AudioError::InvalidAudioFile(s) if s == "unsupported"));
    assert_eq!(error.kind(), ErrorKind::UnrecognizedOrInvalidAudio);
    assert_eq!(error.message(), "Invalid audio file: unsupported");
}

#[test]
fn missing_default_track_is_invalid_audio() {
    let state = DecodeState::new().step(DecodeEvent::Probed { has_default_track: false });
    let (stage, error) = expect_failure(state);
    assert_eq!(stage, DecodeStage::Probing);
    assert!(matches!(&error, AudioError::InvalidAudioFile(s) if s == "No default track found"));
}

#[test]
fn unsupported_codec_is_a_decoder_setup_error() {
    let state = DecodeState::new().step(DecodeEvent::Probed { has_default_track: true }).step(
        DecodeEvent::TrackOpened {
            decoder_error: Some("unsupported codec".to_string()),
            sample_rate: None,
            n_frames: None,
        },
    );
    let (stage, error) = expect_failure(state);
    assert_eq!(stage, DecodeStage::TrackSelected);
    assert!(matches!(&error, AudioError::Symphonia(s) if s == "unsupported codec"));
    assert_eq!(error.kind(), ErrorKind::DecodeFailure);
    assert_eq!(error.message(), "Symphonia error: unsupported codec");
}

#[test]
fn missing_sample_rate_is_invalid_audio() {
    let next = open_track(None, None, Some(10));
    let (stage, error) = expect_failure(next);
    assert_eq!(stage, DecodeStage::TrackSelected);
    assert!(
        matches!(&error, AudioError::InvalidAudioFile(s) if s == "Could not determine sample rate")
    );
    // The sample rate is asked for before the frame count.
    let (_, error) = expect_failure(open_track(None, None, None));
    assert!(
        matches!(&error, AudioError::InvalidAudioFile(s) if s == "Could not determine sample rate")
    );
}

#[test]
fn missing_frame_count_is_invalid_audio() {
    let (stage, error) = expect_failure(open_track(None, Some(44_100), None));
    assert_eq!(stage, DecodeStage::TrackSelected);
    assert!(matches!(&error, AudioError::InvalidAudioFile(s) if s == "Could not determine duration"));
    assert_eq!(error.message(), "Invalid audio file: Could not determine duration");
}

#[test]
fn rejected_packet_discards_the_peaks() {
    let state = decoding(100, 6)
        .step(DecodeEvent::Packet { samples: bits(&[0.1, 0.2, 0.3]) })
        .step(DecodeEvent::PacketRejected { reason: "malformed stream".to_string() });
    let (stage, error) = expect_failure(state);
    assert_eq!(stage, DecodeStage::Decoding);
    assert!(matches!(&error, AudioError::Processing(s) if s == "Decode error: malformed stream"));
    assert_eq!(error.kind(), ErrorKind::DecodeFailure);
    assert_eq!(error.message(), "Processing error: Decode error: malformed stream");
}

#[test]
fn failure_and_completion_are_final() {
    let failed = DecodeState::new()
        .step(DecodeEvent::ProbeFailed { reason: "no".to_string() })
        .step(DecodeEvent::Probed { has_default_track: true })
        .step(opened(100, 2))
        .step(DecodeEvent::Packet { samples: bits(&[0.5]) })
        .step(DecodeEvent::EndOfStream);
    let (stage, error) = expect_failure(failed);
    assert_eq!(stage, DecodeStage::Probing);
    assert!(matches!(&error, AudioError::InvalidAudioFile(s) if s == "no"));

    let done = decoding(100, 2)
        .step(DecodeEvent::Packet { samples: bits(&[0.5, 0.25]) })
        .step(DecodeEvent::EndOfStream)
        .step(DecodeEvent::Packet { samples: bits(&[0.9, 0.9]) })
        .step(DecodeEvent::PacketRejected { reason: "late".to_string() });
    assert_eq!(floats(&expect_summary(done).peaks), vec![0.5]);
}

#[test]
fn events_of_another_stage_change_nothing() {
    let state = DecodeState::new()
        .step(DecodeEvent::EndOfStream)
        .step(DecodeEvent::Packet { samples: bits(&[0.5]) })
        .step(opened(100, 2))
        .step(DecodeEvent::PacketRejected { reason: "x".to_string() })
        .step(DecodeEvent::ReadFailed { reason: "x".to_string() });
    assert!(matches!(state, DecodeState::Probing));
    let state = state
        .step(DecodeEvent::Probed { has_default_track: true })
        .step(DecodeEvent::Probed { has_default_track: false })
        .step(DecodeEvent::ProbeFailed { reason: "x".to_string() })
        .step(DecodeEvent::ReadFailed { reason: "x".to_string() })
        .step(DecodeEvent::EndOfStream);
    assert!(matches!(state, DecodeState::TrackSelected));
    let state = state
        .step(opened(100, 2))
        .step(opened(200, 4))
        .step(DecodeEvent::ProbeFailed { reason: "x".to_string() });
    assert!(
        matches!(&state, DecodeState::Decoding { sample_rate: 100, n_frames: 2, peaks } if peaks.is_empty())
    );
}

#[test]
fn summary_holds_peaks_rate_and_declared_duration() {
    let state = decoding(100, 1_000)
        .step(DecodeEvent::Packet { samples: bits(&[0.1, -0.2, 0.3]) })
        .step(DecodeEvent::Packet { samples: bits(&[]) })
        .step(DecodeEvent::Packet { samples: bits(&[-0.4, 0.05, 0.6, 0.7]) })
        .step(DecodeEvent::EndOfStream);
    let summary = expect_summary(state);
    // Windows do not reach across packets: the first packet ends in a short window.
    assert_eq!(floats(&summary.peaks), vec![0.2, 0.3, 0.4, 0.7]);
    assert_eq!(summary.sample_rate, 100);
    // The duration is the declared one, whatever was decoded.
    assert_eq!(summary.duration, StreamDuration { n_frames: 1_000, sample_rate: 100 });
}

#[test]
fn stream_without_packets_gives_an_empty_summary() {
    let summary = expect_summary(decoding(44_100, 0).step(DecodeEvent::EndOfStream));
    assert!(summary.peaks.is_empty());
    assert_eq!(summary.duration, StreamDuration { n_frames: 0, sample_rate: 44_100 });
}

#[test]
fn track_below_fifty_frames_per_second_is_opened_like_any_other() {
    for rate in [0u32, 1, 10, 49] {
        let state = open_track(None, Some(rate), Some(7));
        assert!(
            matches!(&state, DecodeState::Decoding { sample_rate, n_frames: 7, peaks } if *sample_rate == rate && peaks.is_empty())
        );
        // A missing frame count is reported as for any other rate.
        let (stage, error) = expect_failure(open_track(None, Some(rate), None));
        assert_eq!(stage, DecodeStage::TrackSelected);
        assert!(matches!(&error, AudioError::InvalidAudioFile(s) if s == "Could not determine duration"));
        // Without packets the analysis completes with no peaks and the declared duration.
        let summary = expect_summary(decoding(rate, 7).step(DecodeEvent::EndOfStream));
        assert!(summary.peaks.is_empty());
        assert_eq!(summary.sample_rate, rate);
        assert_eq!(summary.duration, StreamDuration { n_frames: 7, sample_rate: rate });
        // With a packet it fails, and stays failed.
        let state = decoding(rate, 7)
            .step(DecodeEvent::Packet { samples: bits(&[0.5]) })
            .step(DecodeEvent::EndOfStream);
        let (stage, error) = expect_failure(state);
        assert_eq!(stage, DecodeStage::Decoding);
        assert!(
            matches!(&error, AudioError::Processing(s) if s == "Sample rate is below 50 frames per second")
        );
        assert_eq!(error.kind(), ErrorKind::DecodeFailure);
    }
}

#[test]
fn packet_for_a_state_without_windows_fails_the_analysis() {
    // Also with peaks gathered before, and for a packet without samples.
    for rate in [0u32, 49] {
        for samples in [bits(&[0.5, 0.25]), bits(&[])] {
            let state = DecodeState::Decoding { sample_rate: rate, n_frames: 3, peaks: bits(&[0.9]) };
            let (stage, error) = expect_failure(state.step(DecodeEvent::Packet { samples }));
            assert_eq!(stage, DecodeStage::Decoding);
            assert!(
                matches!(&error, AudioError::Processing(s) if s == "Sample rate is below 50 frames per second")
            );
            assert_eq!(error.kind(), ErrorKind::DecodeFailure);
        }
    }
}

#[test]
fn failed_read_discards_the_peaks() {
    let state = decoding(100, 6)
        .step(DecodeEvent::Packet { samples: bits(&[0.1, 0.2, 0.3]) })
        .step(DecodeEvent::ReadFailed { reason: "connection reset".to_string() })
        .step(DecodeEvent::EndOfStream);
    let (stage, error) = expect_failure(state);
    assert_eq!(stage, DecodeStage::Decoding);
    assert!(matches!(&error, AudioError::Processing(s) if s == "Read error: connection reset"));
    assert_eq!(error.kind(), ErrorKind::DecodeFailure);
    assert_eq!(error.message(), "Processing error: Read error: connection reset");
    // Before any packet, too.
    let state = decoding(100, 6).step(DecodeEvent::ReadFailed { reason: String::new() });
    assert!(matches!(state.outcome(), Some(Err(AudioError::Processing(s))) if s == "Read error: "));
}

#[test]
fn outcome_is_known_only_at_the_end() {
    assert!(DecodeState::new().outcome().is_none());
    assert!(decoding(100, 2).outcome().is_none());
    let failed = DecodeState::new().step(DecodeEvent::Probed { has_default_track: false });
    assert!(matches!(failed.outcome(), Some(Err(AudioError::InvalidAudioFile(_)))));
}

#[test]
fn whole_stream_reduction_agrees_with_the_state_machine() {
    let packets: Vec<Vec<u32>> = vec![
        bits(&[0.1, -0.2, 0.3]),
        bits(&[]),
        bits(&[-0.4, 0.05, 0.6, 0.7]),
        bits(&[0.9]),
    ];
    let mut state = decoding(100, 8);
    for p in &packets {
        state = state.step(DecodeEvent::Packet { samples: p.clone() });
    }
    let stepped = expect_summary(state.step(DecodeEvent::EndOfStream));
    let whole = process_audio_frames(&packets, 100, 8).unwrap();
    assert_eq!(whole.peaks, stepped.peaks);
    assert_eq!(whole.duration, stepped.duration);
    assert_eq!(whole.sample_rate, stepped.sample_rate);
    assert_eq!(floats(&whole.peaks), vec![0.2, 0.3, 0.4, 0.7, 0.9]);
    let none = process_audio_frames(&Vec::new(), 7, 3).unwrap();
    assert!(none.peaks.is_empty());
    assert_eq!(none.duration, StreamDuration { n_frames: 3, sample_rate: 7 });
}

#[test]
fn whole_stream_below_fifty_frames_per_second_is_refused() {
    for rate in [0u32, 10, 49] {
        for packets in [vec![bits(&[0.5])], vec![bits(&[]), bits(&[0.5, 0.25])], vec![bits(&[])]] {
            let error = process_audio_frames(&packets, rate, 5).unwrap_err();
            assert!(
                matches!(&error, AudioError::Processing(s) if s == "Sample rate is below 50 frames per second")
            );
        }
        assert!(process_audio_frames(&Vec::new(), rate, 5).unwrap().peaks.is_empty());
    }
    assert_eq!(process_audio_frames(&vec![bits(&[0.5])], 50, 5).unwrap().peaks, bits(&[0.5]));
}

#[test]
fn two_seconds_of_mono_sine_give_a_hundred_peaks() {
    let rate = 44_100u32;
    let frames = 88_200usize;
    let samples: Vec<f32> = (0..frames)
        .map(|i| (2.0 * std::f32::consts::PI * 440.0 * (i as f32) / (rate as f32)).sin() * 0.8)
        .collect();
    // Packets of whole windows, as a decoder with a matching packet size gives them.
    let packets: Vec<Vec<u32>> = samples.chunks(882 * 5).map(bits).collect();
    let summary = process_audio_frames(&packets, rate, frames as u64).unwrap();
    assert_eq!(summary.peaks.len(), 100);
    assert_eq!(summary.duration.millis(), Some(2_000));
    let seconds = summary.duration.n_frames as f64 / summary.duration.sample_rate as f64;
    assert!((seconds - 2.0).abs() <= 0.05);
    for p in floats(&summary.peaks) {
        assert!(p > 0.79 && p <= 0.8);
    }
    // One packet for the whole stream gives the same.
    let single = process_audio_frames(&vec![bits(&samples)], rate, frames as u64).unwrap();
    assert_eq!(single.peaks, summary.peaks);
}

#[test]
fn peak_count_of_a_stream_is_frames_over_window_rounded_up_for_whole_windows() {
    // Every packet but the last holds a whole number of windows of 160 samples.
    let packets: Vec<Vec<u32>> = vec![vec![0u32; 320], vec![0u32; 160], vec![0u32; 480], vec![0u32; 7]];
    let total: usize = packets.iter().map(|p| p.len()).sum();
    let summary = process_audio_frames(&packets, 8_000, total as u64).unwrap();
    assert_eq!(summary.peaks.len(), (total + 159) / 160);
    assert_eq!(summary.peaks.len(), 7);
}

#[test]
fn packets_of_broken_windows_give_more_peaks_than_the_total_would() {
    // Two packets of one sample each, with a window of two samples.
    let packets: Vec<Vec<u32>> = vec![bits(&[0.5]), bits(&[0.25])];
    let summary = process_audio_frames(&packets, 100, 2).unwrap();
    assert_eq!(floats(&summary.peaks), vec![0.5, 0.25]);
}
