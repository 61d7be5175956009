//! The analysis results: what is stored for a file and what a caller gets.
//!
//! A peak is held as the bit pattern of an IEEE 754 single-precision number,
//! and a duration as the ratio of a frame count to a sample rate, so that no
//! rounding happens here.

use vstd::prelude::*;

verus! {

/// A length of time: `n_frames` frames at `sample_rate` frames per second,
/// which is `n_frames / sample_rate` seconds.
#[derive(Debug, Clone, Copy, PartialEq, Eq, Structural)]
pub struct StreamDuration {
    pub n_frames: u64,
    pub sample_rate: u32,
}

impl StreamDuration {
    /// The duration in milliseconds, rounded down.
    pub open spec fn millis_floor(&self) -> int
        recommends
            self.sample_rate > 0,
    {
        self.n_frames * 1000 / (self.sample_rate as int)
    }

    /// The duration in whole milliseconds, rounded down; `None` where the
    /// sample rate is zero and the ratio has no value.
    pub fn millis(&self) -> (ms: Option<u128>)
        ensures
            self.sample_rate == 0 <==> ms is None,
            ms matches Some(m) ==> m == self.millis_floor(),
    {
        if self.sample_rate == 0 {
            None
        } else {
            let scaled: u128 = self.n_frames as u128 * 1000;
            Some(scaled / self.sample_rate as u128)
        }
    }
}

/// The waveform summary of a file: one peak per window, in time order.
#[derive(Debug)]
pub struct WaveformData {
    /// The peaks, each the bit pattern of a magnitude.
    pub peaks: Vec<u32>,
    /// Duration that the codec reports, whatever the number of peaks.
    pub duration: StreamDuration,
    /// Frames per second of the source.
    pub sample_rate: u32,
}

/// What a `WaveformData` holds, as mathematical values.
pub struct WaveformModel {
    pub peaks: Seq<u32>,
    pub duration: StreamDuration,
    pub sample_rate: u32,
}

impl View for WaveformData {
    type V = WaveformModel;

    open spec fn view(&self) -> WaveformModel {
        WaveformModel { peaks: self.peaks@, duration: self.duration, sample_rate: self.sample_rate }
    }
}

impl Clone for WaveformData {
    fn clone(&self) -> (copy: Self)
        ensures
            copy@ == self@,
    {
        let peaks: Vec<u32> = self.peaks.clone();
        assert(peaks@ =~= self.peaks@);
        WaveformData { peaks, duration: self.duration, sample_rate: self.sample_rate }
    }
}

/// Peaks without a duration.
#[derive(Debug)]
pub struct PeakCache {
    /// The peaks, each the bit pattern of a magnitude.
    pub peaks: Vec<u32>,
    /// Frames per second of the source.
    pub sample_rate: u32,
}

/// What a `PeakCache` holds, as mathematical values.
pub struct PeakModel {
    pub peaks: Seq<u32>,
    pub sample_rate: u32,
}

impl View for PeakCache {
    type V = PeakModel;

    open spec fn view(&self) -> PeakModel {
        PeakModel { peaks: self.peaks@, sample_rate: self.sample_rate }
    }
}

impl Clone for PeakCache {
    fn clone(&self) -> (copy: Self)
        ensures
            copy@ == self@,
    {
        let peaks: Vec<u32> = self.peaks.clone();
        assert(peaks@ =~= self.peaks@);
        PeakCache { peaks, sample_rate: self.sample_rate }
    }
}

/// What a caller gets back for an analyzed file.
#[derive(Debug)]
pub struct ImportResult {
    /// Path of the analyzed file, as it was given.
    pub file_path: String,
    /// Duration of the audio.
    pub duration_seconds: StreamDuration,
    /// Key under which the waveform summary is stored.
    pub cache_key: String,
}

/// What an `ImportResult` holds, as mathematical values.
pub struct ImportModel {
    pub file_path: Seq<char>,
    pub duration_seconds: StreamDuration,
    pub cache_key: Seq<char>,
}

impl View for ImportResult {
    type V = ImportModel;

    open spec fn view(&self) -> ImportModel {
        ImportModel {
            file_path: self.file_path@,
            duration_seconds: self.duration_seconds,
            cache_key: self.cache_key@,
        }
    }
}

} // verus!
