//! The decode pipeline as a state machine.
//!
//! Container probing and packet decoding are done by a decoder outside this
//! library. The caller drives it and reports each outcome as an event; the
//! state machine decides what the outcome means: which stage follows, which
//! error a failure is, and how the peaks of a decoded packet join the summary.
//! One analysis runs
//! `Probing -> TrackSelected -> Decoding -> Complete`, or ends in `Failed` at
//! the stage where something went wrong. A failed analysis keeps no peaks.
//!
//! Every event is taken in every state, and nothing that a file declares can
//! do more than fail the analysis: where a stream has fewer than fifty frames
//! per second, so that a window would hold no sample, its first packet fails
//! the analysis. Such a stream without packets completes with no peaks.

use crate::error::{AudioError, ErrorKind, ErrorModel};
use crate::peaks::{
    append_packet_peaks, low_rate_text, packet_peaks, stream_peaks, window_len, PEAKS_PER_SECOND,
};
use crate::waveform::{StreamDuration, WaveformData, WaveformModel};
use vstd::prelude::*;

verus! {

/// The stages of one analysis.
#[derive(Debug, Clone, Copy, PartialEq, Eq, Structural)]
pub enum DecodeStage {
    Probing,
    TrackSelected,
    Decoding,
    Complete,
    Failed,
}

/// What the caller has to do next.
#[derive(Debug, Clone, Copy, PartialEq, Eq, Structural)]
pub enum DecodeAction {
    /// Probe the container and look for its default track.
    Probe,
    /// Set up a decoder for the track and read its sample rate and frame count.
    OpenTrack,
    /// Read and decode the next packet.
    ReadPacket,
    /// Nothing: the analysis is over.
    Stop,
}

/// Where one analysis stands, with what it has gathered so far.
#[derive(Debug)]
pub enum DecodeState {
    /// Nothing is known of the source yet.
    Probing,
    /// The container is recognised and has a default track.
    TrackSelected,
    /// Packets are being decoded.
    Decoding { sample_rate: u32, n_frames: u64, peaks: Vec<u32> },
    /// The stream ended; the summary is ready.
    Complete { waveform: WaveformData },
    /// The analysis failed at `stage`.
    Failed { stage: DecodeStage, error: AudioError },
}

/// What a `DecodeState` holds, as mathematical values.
pub enum DecodeStateModel {
    Probing,
    TrackSelected,
    Decoding { sample_rate: u32, n_frames: u64, peaks: Seq<u32> },
    Complete { waveform: WaveformModel },
    Failed { stage: DecodeStage, error: ErrorModel },
}

impl View for DecodeState {
    type V = DecodeStateModel;

    open spec fn view(&self) -> DecodeStateModel {
        match self {
            DecodeState::Probing => DecodeStateModel::Probing,
            DecodeState::TrackSelected => DecodeStateModel::TrackSelected,
            DecodeState::Decoding { sample_rate, n_frames, peaks } => DecodeStateModel::Decoding {
                sample_rate: *sample_rate,
                n_frames: *n_frames,
                peaks: peaks@,
            },
            DecodeState::Complete { waveform } => DecodeStateModel::Complete { waveform: waveform@ },
            DecodeState::Failed { stage, error } => DecodeStateModel::Failed {
                stage: *stage,
                error: error@,
            },
        }
    }
}

/// What the decoder reported.
#[derive(Debug)]
pub enum DecodeEvent {
    /// The prober did not recognise the bytes as audio.
    ProbeFailed { reason: String },
    /// The prober recognised the container.
    Probed { has_default_track: bool },
    /// The track was looked at: whether a decoder could be set up for its
    /// codec, and the sample rate and frame count that it declares.
    TrackOpened { decoder_error: Option<String>, sample_rate: Option<u32>, n_frames: Option<u64> },
    /// A packet was decoded into interleaved samples.
    Packet { samples: Vec<u32> },
    /// The decoder rejected a packet.
    PacketRejected { reason: String },
    /// The next packet could not be read, for another reason than the end of
    /// the stream.
    ReadFailed { reason: String },
    /// No packet is left.
    EndOfStream,
}

/// What a `DecodeEvent` holds, as mathematical values.
pub enum DecodeEventModel {
    ProbeFailed { reason: Seq<char> },
    Probed { has_default_track: bool },
    TrackOpened {
        decoder_error: Option<Seq<char>>,
        sample_rate: Option<u32>,
        n_frames: Option<u64>,
    },
    Packet { samples: Seq<u32> },
    PacketRejected { reason: Seq<char> },
    ReadFailed { reason: Seq<char> },
    EndOfStream,
}

/// The text of an optional string.
pub open spec fn text_of(s: Option<String>) -> Option<Seq<char>> {
    match s {
        Some(s) => Some(s@),
        None => None,
    }
}

impl View for DecodeEvent {
    type V = DecodeEventModel;

    open spec fn view(&self) -> DecodeEventModel {
        match self {
            DecodeEvent::ProbeFailed { reason } => DecodeEventModel::ProbeFailed { reason: reason@ },
            DecodeEvent::Probed { has_default_track } => DecodeEventModel::Probed {
                has_default_track: *has_default_track,
            },
            DecodeEvent::TrackOpened {
                decoder_error,
                sample_rate,
                n_frames,
            } => DecodeEventModel::TrackOpened {
                decoder_error: text_of(*decoder_error),
                sample_rate: *sample_rate,
                n_frames: *n_frames,
            },
            DecodeEvent::Packet { samples } => DecodeEventModel::Packet { samples: samples@ },
            DecodeEvent::PacketRejected { reason } => DecodeEventModel::PacketRejected {
                reason: reason@,
            },
            DecodeEvent::ReadFailed { reason } => DecodeEventModel::ReadFailed { reason: reason@ },
            DecodeEvent::EndOfStream => DecodeEventModel::EndOfStream,
        }
    }
}

/// Cause given where the container has no default track.
pub open spec fn no_track_text() -> Seq<char> {
    "No default track found"@
}

/// Cause given where the track declares no sample rate.
pub open spec fn no_sample_rate_text() -> Seq<char> {
    "Could not determine sample rate"@
}

/// Cause given where the track declares no frame count.
pub open spec fn no_duration_text() -> Seq<char> {
    "Could not determine duration"@
}

/// Cause given where the decoder rejected a packet.
pub open spec fn decode_error_text(reason: Seq<char>) -> Seq<char> {
    "Decode error: "@ + reason
}

/// Cause given where the next packet could not be read.
pub open spec fn read_error_text(reason: Seq<char>) -> Seq<char> {
    "Read error: "@ + reason
}

/// What follows the look at the selected track. The decoder's refusal of the
/// codec comes first, then a missing sample rate, then a missing frame count.
pub open spec fn opened(
    decoder_error: Option<Seq<char>>,
    sample_rate: Option<u32>,
    n_frames: Option<u64>,
) -> DecodeStateModel {
    match decoder_error {
        Some(reason) => DecodeStateModel::Failed {
            stage: DecodeStage::TrackSelected,
            error: ErrorModel::Symphonia(reason),
        },
        None => if sample_rate is None {
            DecodeStateModel::Failed {
                stage: DecodeStage::TrackSelected,
                error: ErrorModel::InvalidAudioFile(no_sample_rate_text()),
            }
        } else if n_frames is None {
            DecodeStateModel::Failed {
                stage: DecodeStage::TrackSelected,
                error: ErrorModel::InvalidAudioFile(no_duration_text()),
            }
        } else {
            DecodeStateModel::Decoding {
                sample_rate: sample_rate->0,
                n_frames: n_frames->0,
                peaks: Seq::empty(),
            }
        },
    }
}

/// The summary of a stream that ended with `peaks` gathered.
pub open spec fn finished(sample_rate: u32, n_frames: u64, peaks: Seq<u32>) -> WaveformModel {
    WaveformModel { peaks, duration: StreamDuration { n_frames, sample_rate }, sample_rate }
}

/// The state that follows `state` when `event` is reported. An event that the
/// stage does not expect changes nothing; `Complete` and `Failed` expect none.
/// A packet for a stream of fewer than fifty frames per second fails the
/// analysis: its window would hold no sample.
pub open spec fn transition(state: DecodeStateModel, event: DecodeEventModel) -> DecodeStateModel {
    match state {
        DecodeStateModel::Probing => match event {
            DecodeEventModel::ProbeFailed { reason } => DecodeStateModel::Failed {
                stage: DecodeStage::Probing,
                error: ErrorModel::InvalidAudioFile(reason),
            },
            DecodeEventModel::Probed { has_default_track } => if has_default_track {
                DecodeStateModel::TrackSelected
            } else {
                DecodeStateModel::Failed {
                    stage: DecodeStage::Probing,
                    error: ErrorModel::InvalidAudioFile(no_track_text()),
                }
            },
            _ => state,
        },
        DecodeStateModel::TrackSelected => match event {
            DecodeEventModel::TrackOpened { decoder_error, sample_rate, n_frames } => opened(
                decoder_error,
                sample_rate,
                n_frames,
            ),
            _ => state,
        },
        DecodeStateModel::Decoding { sample_rate, n_frames, peaks } => match event {
            DecodeEventModel::Packet { samples } => if sample_rate >= PEAKS_PER_SECOND {
                DecodeStateModel::Decoding {
                    sample_rate,
                    n_frames,
                    peaks: peaks + packet_peaks(samples, window_len(sample_rate)),
                }
            } else {
                DecodeStateModel::Failed {
                    stage: DecodeStage::Decoding,
                    error: ErrorModel::Processing(low_rate_text()),
                }
            },
            DecodeEventModel::PacketRejected { reason } => DecodeStateModel::Failed {
                stage: DecodeStage::Decoding,
                error: ErrorModel::Processing(decode_error_text(reason)),
            },
            DecodeEventModel::ReadFailed { reason } => DecodeStateModel::Failed {
                stage: DecodeStage::Decoding,
                error: ErrorModel::Processing(read_error_text(reason)),
            },
            DecodeEventModel::EndOfStream => DecodeStateModel::Complete {
                waveform: finished(sample_rate, n_frames, peaks),
            },
            _ => state,
        },
        DecodeStateModel::Complete { .. } => state,
        DecodeStateModel::Failed { .. } => state,
    }
}

impl DecodeStateModel {
    /// The stage of this state.
    pub open spec fn stage(&self) -> DecodeStage {
        match self {
            DecodeStateModel::Probing => DecodeStage::Probing,
            DecodeStateModel::TrackSelected => DecodeStage::TrackSelected,
            DecodeStateModel::Decoding { .. } => DecodeStage::Decoding,
            DecodeStateModel::Complete { .. } => DecodeStage::Complete,
            DecodeStateModel::Failed { .. } => DecodeStage::Failed,
        }
    }

    /// What the caller has to do next in this state.
    pub open spec fn action(&self) -> DecodeAction {
        match self {
            DecodeStateModel::Probing => DecodeAction::Probe,
            DecodeStateModel::TrackSelected => DecodeAction::OpenTrack,
            DecodeStateModel::Decoding { .. } => DecodeAction::ReadPacket,
            DecodeStateModel::Complete { .. } => DecodeAction::Stop,
            DecodeStateModel::Failed { .. } => DecodeAction::Stop,
        }
    }
}

impl DecodeState {
    /// The state in which every analysis starts.
    pub fn new() -> (state: DecodeState)
        ensures
            state@ == DecodeStateModel::Probing,
    {
        DecodeState::Probing
    }

    /// The stage of this state.
    pub fn stage(&self) -> (stage: DecodeStage)
        ensures
            stage == self@.stage(),
    {
        match self {
            DecodeState::Probing => DecodeStage::Probing,
            DecodeState::TrackSelected => DecodeStage::TrackSelected,
            DecodeState::Decoding { .. } => DecodeStage::Decoding,
            DecodeState::Complete { .. } => DecodeStage::Complete,
            DecodeState::Failed { .. } => DecodeStage::Failed,
        }
    }

    /// What the caller has to do next.
    pub fn action(&self) -> (action: DecodeAction)
        ensures
            action == self@.action(),
    {
        match self {
            DecodeState::Probing => DecodeAction::Probe,
            DecodeState::TrackSelected => DecodeAction::OpenTrack,
            DecodeState::Decoding { .. } => DecodeAction::ReadPacket,
            DecodeState::Complete { .. } => DecodeAction::Stop,
            DecodeState::Failed { .. } => DecodeAction::Stop,
        }
    }

    /// How the analysis ended: the summary, or the error; `None` while it is
    /// still under way.
    pub fn outcome(self) -> (result: Option<Result<WaveformData, AudioError>>)
        ensures
            match self@ {
                DecodeStateModel::Complete { waveform } => result matches Some(Ok(w)) && w@
                    == waveform,
                DecodeStateModel::Failed { error, .. } => result matches Some(Err(e)) && e@
                    == error,
                _ => result is None,
            },
    {
        match self {
            DecodeState::Complete { waveform } => Some(Ok(waveform)),
            DecodeState::Failed { error, .. } => Some(Err(error)),
            _ => None,
        }
    }

    /// Takes one event and gives the state that follows.
    pub fn step(self, event: DecodeEvent) -> (next: DecodeState)
        ensures
            next@ == transition(self@, event@),
    {
        match self {
            DecodeState::Probing => match event {
                DecodeEvent::ProbeFailed { reason } => DecodeState::Failed {
                    stage: DecodeStage::Probing,
                    error: AudioError::InvalidAudioFile(reason),
                },
                DecodeEvent::Probed { has_default_track } => if has_default_track {
                    DecodeState::TrackSelected
                } else {
                    DecodeState::Failed {
                        stage: DecodeStage::Probing,
                        error: AudioError::InvalidAudioFile(
                            String::from_str("No default track found"),
                        ),
                    }
                },
                _ => DecodeState::Probing,
            },
            DecodeState::TrackSelected => match event {
                DecodeEvent::TrackOpened { decoder_error, sample_rate, n_frames } => open_track(
                    decoder_error,
                    sample_rate,
                    n_frames,
                ),
                _ => DecodeState::TrackSelected,
            },
            DecodeState::Decoding { sample_rate, n_frames, peaks } => match event {
                DecodeEvent::Packet { samples } => {
                    let mut peaks = peaks;
                    match append_packet_peaks(&mut peaks, samples.as_slice(), sample_rate) {
                        Ok(()) => DecodeState::Decoding { sample_rate, n_frames, peaks },
                        Err(error) => DecodeState::Failed { stage: DecodeStage::Decoding, error },
                    }
                },
                DecodeEvent::PacketRejected { reason } => DecodeState::Failed {
                    stage: DecodeStage::Decoding,
                    error: AudioError::Processing(
                        String::from_str("Decode error: ").concat(reason.as_str()),
                    ),
                },
                DecodeEvent::ReadFailed { reason } => DecodeState::Failed {
                    stage: DecodeStage::Decoding,
                    error: AudioError::Processing(
                        String::from_str("Read error: ").concat(reason.as_str()),
                    ),
                },
                DecodeEvent::EndOfStream => DecodeState::Complete {
                    waveform: WaveformData {
                        peaks,
                        duration: StreamDuration { n_frames, sample_rate },
                        sample_rate,
                    },
                },
                _ => DecodeState::Decoding { sample_rate, n_frames, peaks },
            },
            DecodeState::Complete { waveform } => DecodeState::Complete { waveform },
            DecodeState::Failed { stage, error } => DecodeState::Failed { stage, error },
        }
    }
}

/// Decides what follows the look at the selected track. The decoder's refusal
/// of the codec is reported before a missing sample rate, and that before a
/// missing frame count.
pub fn open_track(
    decoder_error: Option<String>,
    sample_rate: Option<u32>,
    n_frames: Option<u64>,
) -> (next: DecodeState)
    ensures
        next@ == opened(text_of(decoder_error), sample_rate, n_frames),
{
    match decoder_error {
        Some(reason) => DecodeState::Failed {
            stage: DecodeStage::TrackSelected,
            error: AudioError::Symphonia(reason),
        },
        None => match sample_rate {
            None => DecodeState::Failed {
                stage: DecodeStage::TrackSelected,
                error: AudioError::InvalidAudioFile(
                    String::from_str("Could not determine sample rate"),
                ),
            },
            Some(sample_rate) => match n_frames {
                None => DecodeState::Failed {
                    stage: DecodeStage::TrackSelected,
                    error: AudioError::InvalidAudioFile(
                        String::from_str("Could not determine duration"),
                    ),
                },
                Some(n_frames) => DecodeState::Decoding {
                    sample_rate,
                    n_frames,
                    peaks: Vec::new(),
                },
            },
        },
    }
}

/// The decoded packets of a stream, each as the sequence of its samples.
pub open spec fn packets_of(packets: Seq<Vec<u32>>) -> Seq<Seq<u32>> {
    Seq::new(packets.len(), |i: int| packets[i]@)
}

/// Reduces a stream that was decoded in full: the peaks of its packets, one
/// packet after the other, with the duration that the codec reports. A stream
/// of fewer than fifty frames per second that holds a packet is refused.
pub fn process_audio_frames(packets: &Vec<Vec<u32>>, sample_rate: u32, n_frames: u64) -> (result:
    Result<WaveformData, AudioError>)
    ensures
        sample_rate >= PEAKS_PER_SECOND || packets@.len() == 0 ==> (result matches Ok(waveform)
            && waveform@ == finished(
            sample_rate,
            n_frames,
            stream_peaks(packets_of(packets@), window_len(sample_rate)),
        )),
        sample_rate < PEAKS_PER_SECOND && packets@.len() > 0 ==> (result matches Err(e) && e@
            == ErrorModel::Processing(low_rate_text())),
{
    let mut peaks: Vec<u32> = Vec::new();
    let mut i: usize = 0;
    while i < packets.len()
        invariant
            i <= packets@.len(),
            i > 0 ==> sample_rate >= PEAKS_PER_SECOND,
            peaks@ == stream_peaks(packets_of(packets@).take(i as int), window_len(sample_rate)),
        decreases packets@.len() - i,
    {
        proof {
            let all = packets_of(packets@);
            assert(all.take(i + 1).drop_last() =~= all.take(i as int));
            assert(all.take(i + 1).last() == packets@[i as int]@);
        }
        match append_packet_peaks(&mut peaks, packets[i].as_slice(), sample_rate) {
            Ok(()) => {},
            Err(e) => {
                return Err(e);
            },
        }
        i += 1;
    }
    assert(packets_of(packets@).take(i as int) =~= packets_of(packets@));
    Ok(WaveformData { peaks, duration: StreamDuration { n_frames, sample_rate }, sample_rate })
}

/// The state after `events` have been taken one by one, starting in `start`.
pub open spec fn run(start: DecodeStateModel, events: Seq<DecodeEventModel>) -> DecodeStateModel
    decreases events.len(),
{
    if events.len() == 0 {
        start
    } else {
        transition(run(start, events.drop_last()), events.last())
    }
}

/// The events of a stream whose every packet decodes.
pub open spec fn packet_events(packets: Seq<Seq<u32>>) -> Seq<DecodeEventModel> {
    Seq::new(packets.len(), |i: int| DecodeEventModel::Packet { samples: packets[i] })
}

/// The events of an analysis in which nothing goes wrong.
pub open spec fn stream_events(sample_rate: u32, n_frames: u64, packets: Seq<Seq<u32>>) -> Seq<
    DecodeEventModel,
> {
    seq![
        DecodeEventModel::Probed { has_default_track: true },
        DecodeEventModel::TrackOpened {
            decoder_error: None,
            sample_rate: Some(sample_rate),
            n_frames: Some(n_frames),
        },
    ] + packet_events(packets) + seq![DecodeEventModel::EndOfStream]
}

/// Taking two runs of events in a row is taking them as one run.
pub proof fn lemma_run_concat(
    start: DecodeStateModel,
    first: Seq<DecodeEventModel>,
    second: Seq<DecodeEventModel>,
)
    ensures
        run(start, first + second) == run(run(start, first), second),
    decreases second.len(),
{
    if second.len() == 0 {
        assert(first + second =~= first);
    } else {
        lemma_run_concat(start, first, second.drop_last());
        assert((first + second).drop_last() =~= first + second.drop_last());
        assert((first + second).last() == second.last());
    }
}

/// `Complete` and `Failed` are final: no event leads out of them, and a
/// failure keeps its stage and its error.
pub proof fn lemma_final_states_stay(state: DecodeStateModel, events: Seq<DecodeEventModel>)
    requires
        state is Complete || state is Failed,
    ensures
        run(state, events) == state,
    decreases events.len(),
{
    if events.len() > 0 {
        lemma_final_states_stay(state, events.drop_last());
    }
}

/// While packets decode, the peaks gathered are those of the stream so far.
pub proof fn lemma_decoding_run(
    sample_rate: u32,
    n_frames: u64,
    peaks: Seq<u32>,
    packets: Seq<Seq<u32>>,
)
    requires
        sample_rate >= PEAKS_PER_SECOND || packets.len() == 0,
    ensures
        run(DecodeStateModel::Decoding { sample_rate, n_frames, peaks }, packet_events(packets))
            == (DecodeStateModel::Decoding {
            sample_rate,
            n_frames,
            peaks: peaks + stream_peaks(packets, window_len(sample_rate)),
        }),
    decreases packets.len(),
{
    let start = DecodeStateModel::Decoding { sample_rate, n_frames, peaks };
    let window = window_len(sample_rate);
    if packets.len() == 0 {
        assert(peaks + stream_peaks(packets, window) =~= peaks);
    } else {
        lemma_decoding_run(sample_rate, n_frames, peaks, packets.drop_last());
        assert(packet_events(packets).drop_last() =~= packet_events(packets.drop_last()));
        assert(packet_events(packets).last() == DecodeEventModel::Packet {
            samples: packets.last(),
        });
        assert(peaks + stream_peaks(packets.drop_last(), window) + packet_peaks(
            packets.last(),
            window,
        ) =~= peaks + stream_peaks(packets, window));
    }
}

/// An analysis in which nothing goes wrong ends in `Complete`, with the peaks
/// of the stream and the duration that the track declares. This holds of a
/// stream of at least fifty frames per second and of one without packets.
pub proof fn lemma_complete_run(sample_rate: u32, n_frames: u64, packets: Seq<Seq<u32>>)
    requires
        sample_rate >= PEAKS_PER_SECOND || packets.len() == 0,
    ensures
        run(DecodeStateModel::Probing, stream_events(sample_rate, n_frames, packets))
            == (DecodeStateModel::Complete {
            waveform: finished(
                sample_rate,
                n_frames,
                stream_peaks(packets, window_len(sample_rate)),
            ),
        }),
{
    let probed = DecodeEventModel::Probed { has_default_track: true };
    let opened = DecodeEventModel::TrackOpened {
        decoder_error: None,
        sample_rate: Some(sample_rate),
        n_frames: Some(n_frames),
    };
    let head = seq![probed, opened];
    let tail = seq![DecodeEventModel::EndOfStream];
    let decoding = DecodeStateModel::Decoding { sample_rate, n_frames, peaks: Seq::empty() };
    assert(run(DecodeStateModel::Probing, head) == decoding) by {
        reveal_with_fuel(run, 3);
        assert(head.drop_last() =~= seq![probed]);
        assert(head.drop_last().drop_last() =~= Seq::<DecodeEventModel>::empty());
    }
    lemma_run_concat(DecodeStateModel::Probing, head, packet_events(packets));
    lemma_decoding_run(sample_rate, n_frames, Seq::empty(), packets);
    lemma_run_concat(DecodeStateModel::Probing, head + packet_events(packets), tail);
    let gathered = stream_peaks(packets, window_len(sample_rate));
    assert(Seq::<u32>::empty() + gathered =~= gathered);
    let after = DecodeStateModel::Decoding { sample_rate, n_frames, peaks: gathered };
    assert(run(after, tail) == transition(after, DecodeEventModel::EndOfStream)) by {
        reveal_with_fuel(run, 2);
        assert(tail.drop_last() =~= Seq::<DecodeEventModel>::empty());
    }
}

/// A summary is only ever made of a stream that was decoded to its end: the
/// one step into `Complete` is the end of the stream while decoding.
pub proof fn lemma_complete_only_at_end_of_stream(state: DecodeStateModel, event: DecodeEventModel)
    requires
        !(state is Complete),
        transition(state, event) is Complete,
    ensures
        state is Decoding,
        event is EndOfStream,
{
}

/// Every failure of the pipeline is of the kind of unrecognised audio or of a
/// decode failure, and it is recorded with the stage in which it happened.
pub proof fn lemma_failure_kinds(state: DecodeStateModel, event: DecodeEventModel)
    requires
        !(state is Failed),
        transition(state, event) is Failed,
    ensures
        transition(state, event)->stage == state.stage(),
        transition(state, event)->error.kind_of() == ErrorKind::UnrecognizedOrInvalidAudio
            || transition(state, event)->error.kind_of() == ErrorKind::DecodeFailure,
{
}

/// An event that fails the analysis fixes how it ends, whatever is reported
/// afterwards.
pub proof fn lemma_failure_fixes_run(
    start: DecodeStateModel,
    event: DecodeEventModel,
    later: Seq<DecodeEventModel>,
)
    requires
        transition(start, event) is Failed,
    ensures
        run(start, seq![event] + later) == transition(start, event),
{
    let first = seq![event];
    assert(run(start, first) == transition(start, event)) by {
        reveal_with_fuel(run, 2);
        assert(first.drop_last() =~= Seq::<DecodeEventModel>::empty());
    }
    lemma_run_concat(start, first, later);
    lemma_final_states_stay(transition(start, event), later);
}

/// Bytes that the prober does not recognise never give a summary, whatever
/// is reported afterwards: the analysis fails as invalid audio.
pub proof fn lemma_unrecognised_input_fails(reason: Seq<char>, later: Seq<DecodeEventModel>)
    ensures
        run(
            DecodeStateModel::Probing,
            seq![DecodeEventModel::ProbeFailed { reason }] + later,
        ) == (DecodeStateModel::Failed {
            stage: DecodeStage::Probing,
            error: ErrorModel::InvalidAudioFile(reason),
        }),
{
    lemma_failure_fixes_run(
        DecodeStateModel::Probing,
        DecodeEventModel::ProbeFailed { reason },
        later,
    );
}

/// A packet that the decoder rejects ends the analysis in a decode failure,
/// whatever was gathered before and whatever is reported afterwards.
pub proof fn lemma_rejected_packet_fails(
    sample_rate: u32,
    n_frames: u64,
    peaks: Seq<u32>,
    reason: Seq<char>,
    later: Seq<DecodeEventModel>,
)
    ensures
        run(
            DecodeStateModel::Decoding { sample_rate, n_frames, peaks },
            seq![DecodeEventModel::PacketRejected { reason }] + later,
        ) == (DecodeStateModel::Failed {
            stage: DecodeStage::Decoding,
            error: ErrorModel::Processing(decode_error_text(reason)),
        }),
{
    lemma_failure_fixes_run(
        DecodeStateModel::Decoding { sample_rate, n_frames, peaks },
        DecodeEventModel::PacketRejected { reason },
        later,
    );
}

/// A read that fails for another reason than the end of the stream ends the
/// analysis in a decode failure, whatever was gathered before and whatever is
/// reported afterwards: no partial summary is made.
pub proof fn lemma_failed_read_fails(
    sample_rate: u32,
    n_frames: u64,
    peaks: Seq<u32>,
    reason: Seq<char>,
    later: Seq<DecodeEventModel>,
)
    ensures
        run(
            DecodeStateModel::Decoding { sample_rate, n_frames, peaks },
            seq![DecodeEventModel::ReadFailed { reason }] + later,
        ) == (DecodeStateModel::Failed {
            stage: DecodeStage::Decoding,
            error: ErrorModel::Processing(read_error_text(reason)),
        }),
{
    lemma_failure_fixes_run(
        DecodeStateModel::Decoding { sample_rate, n_frames, peaks },
        DecodeEventModel::ReadFailed { reason },
        later,
    );
}

/// The first packet of a stream of fewer than fifty frames per second ends the
/// analysis in a decode failure, whatever is reported afterwards.
pub proof fn lemma_packet_without_window_fails(
    sample_rate: u32,
    n_frames: u64,
    peaks: Seq<u32>,
    samples: Seq<u32>,
    later: Seq<DecodeEventModel>,
)
    requires
        sample_rate < PEAKS_PER_SECOND,
    ensures
        run(
            DecodeStateModel::Decoding { sample_rate, n_frames, peaks },
            seq![DecodeEventModel::Packet { samples }] + later,
        ) == (DecodeStateModel::Failed {
            stage: DecodeStage::Decoding,
            error: ErrorModel::Processing(low_rate_text()),
        }),
{
    lemma_failure_fixes_run(
        DecodeStateModel::Decoding { sample_rate, n_frames, peaks },
        DecodeEventModel::Packet { samples },
        later,
    );
}

/// An analysis of a stream of fewer than fifty frames per second that holds a
/// packet ends in a decode failure, as the reduction of the whole stream does.
pub proof fn lemma_stream_without_window_fails(
    sample_rate: u32,
    n_frames: u64,
    packets: Seq<Seq<u32>>,
)
    requires
        sample_rate < PEAKS_PER_SECOND,
        packets.len() > 0,
    ensures
        run(DecodeStateModel::Probing, stream_events(sample_rate, n_frames, packets))
            == (DecodeStateModel::Failed {
            stage: DecodeStage::Decoding,
            error: ErrorModel::Processing(low_rate_text()),
        }),
{
    let probed = DecodeEventModel::Probed { has_default_track: true };
    let opened = DecodeEventModel::TrackOpened {
        decoder_error: None,
        sample_rate: Some(sample_rate),
        n_frames: Some(n_frames),
    };
    let head = seq![probed, opened];
    let decoding = DecodeStateModel::Decoding { sample_rate, n_frames, peaks: Seq::empty() };
    assert(run(DecodeStateModel::Probing, head) == decoding) by {
        reveal_with_fuel(run, 3);
        assert(head.drop_last() =~= seq![probed]);
        assert(head.drop_last().drop_last() =~= Seq::<DecodeEventModel>::empty());
    }
    let first = DecodeEventModel::Packet { samples: packets[0] };
    let later = packet_events(packets.skip(1)) + seq![DecodeEventModel::EndOfStream];
    assert(stream_events(sample_rate, n_frames, packets) =~= head + (seq![first] + later));
    lemma_run_concat(DecodeStateModel::Probing, head, seq![first] + later);
    lemma_packet_without_window_fails(sample_rate, n_frames, Seq::empty(), packets[0], later);
}

} // verus!
