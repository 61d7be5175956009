//! The processor: the one entry point for analyzing a file.
//!
//! An analysis is a key derivation, a look into the store, and only where
//! the store has nothing a decode. Decoding is the caller's part, so the
//! analysis comes in two calls: `analyze_audio` answers from the store or asks
//! for a decode, and `complete_analysis` takes what the decode gave, stores a
//! summary and builds the result. A failed decode stores nothing.
//!
//! Look-up and storing are two calls, not one: where two callers analyze a
//! new file at the same time, both may be asked to decode, and the summary
//! stored last stays.

use crate::decode::{transition, DecodeEventModel, DecodeStateModel};
use crate::error::{AudioError, ErrorKind, ErrorModel};
use crate::key::{derive_key, SourceDescriptor};
use crate::store::WaveformStore;
use crate::waveform::{ImportModel, ImportResult, PeakCache, PeakModel, WaveformData, WaveformModel};
use vstd::hash_map::StringHashMap;
use vstd::prelude::*;

verus! {

/// What `analyze_audio` found.
#[derive(Debug)]
pub enum AnalysisStep {
    /// The summary is stored already: this is the result, and nothing has to
    /// be decoded.
    Cached { result: ImportResult },
    /// Nothing is stored under the key: the file has to be decoded.
    Decode { cache_key: String },
}

/// What an `AnalysisStep` holds, as mathematical values.
pub enum AnalysisStepModel {
    Cached { result: ImportModel },
    Decode { cache_key: Seq<char> },
}

impl View for AnalysisStep {
    type V = AnalysisStepModel;

    open spec fn view(&self) -> AnalysisStepModel {
        match self {
            AnalysisStep::Cached { result } => AnalysisStepModel::Cached { result: result@ },
            AnalysisStep::Decode { cache_key } => AnalysisStepModel::Decode { cache_key: cache_key@ },
        }
    }
}

/// The result for `source` where `summary` is its waveform summary.
pub open spec fn import_of(source: SourceDescriptor, summary: WaveformModel) -> ImportModel {
    ImportModel {
        file_path: source.path@,
        duration_seconds: summary.duration,
        cache_key: source.key(),
    }
}

/// What an analysis of `source` begins with, given the stored summaries: the
/// stored result, or the request to decode.
pub open spec fn first_step(
    waveforms: Map<Seq<char>, WaveformModel>,
    source: SourceDescriptor,
) -> AnalysisStepModel {
    if waveforms.contains_key(source.key()) {
        AnalysisStepModel::Cached { result: import_of(source, waveforms[source.key()]) }
    } else {
        AnalysisStepModel::Decode { cache_key: source.key() }
    }
}

/// Cause given where no waveform summary is stored under a key.
pub open spec fn waveform_not_found_text() -> Seq<char> {
    "Waveform data not found in cache"@
}

/// Cause given where no peaks are stored under a key.
pub open spec fn peaks_not_found_text() -> Seq<char> {
    "Peak data not found in cache"@
}

/// The processor, with the summaries it has computed.
pub struct AudioProcessor {
    cache: StringHashMap<PeakCache>,
    waveform_cache: WaveformStore,
}

impl AudioProcessor {
    /// The stored waveform summaries, by cache key.
    pub closed spec fn waveforms(&self) -> Map<Seq<char>, WaveformModel> {
        self.waveform_cache@
    }

    /// The stored peaks, by cache key. No analysis adds to them.
    pub closed spec fn peak_entries(&self) -> Map<Seq<char>, PeakModel> {
        self.cache@.map_values(|p: PeakCache| p@)
    }

    /// A processor that has analyzed nothing yet.
    pub fn new() -> (processor: AudioProcessor)
        ensures
            processor.waveforms() == Map::<Seq<char>, WaveformModel>::empty(),
            processor.peak_entries() == Map::<Seq<char>, PeakModel>::empty(),
    {
        let processor = AudioProcessor { cache: StringHashMap::new(), waveform_cache: WaveformStore::new() };
        assert(processor.peak_entries() =~= Map::<Seq<char>, PeakModel>::empty());
        processor
    }

    /// Whether no waveform summary is stored.
    pub fn waveform_cache_is_empty(&self) -> (empty: bool)
        ensures
            empty <==> self.waveforms() == Map::<Seq<char>, WaveformModel>::empty(),
    {
        self.waveform_cache.is_empty()
    }

    /// Whether no peaks are stored.
    pub fn peak_cache_is_empty(&self) -> (empty: bool)
        ensures
            empty <==> self.peak_entries() == Map::<Seq<char>, PeakModel>::empty(),
    {
        let empty = self.cache.is_empty();
        proof {
            if empty {
                assert(self.peak_entries() =~= Map::<Seq<char>, PeakModel>::empty());
            } else {
                let k = choose|k: Seq<char>| self.cache@.contains_key(k);
                assert(self.peak_entries().contains_key(k));
            }
        }
        empty
    }

    /// Begins the analysis of `source`: derives its key and looks into the
    /// store. Where the summary is stored, the result is built from it and
    /// nothing is decoded.
    pub fn analyze_audio(&self, source: &SourceDescriptor) -> (step: AnalysisStep)
        ensures
            step@ == first_step(self.waveforms(), *source),
    {
        let cache_key: String = derive_key(source);
        match self.waveform_cache.lookup(cache_key.as_str()) {
            Some(summary) => AnalysisStep::Cached {
                result: ImportResult {
                    file_path: source.path.clone(),
                    duration_seconds: summary.duration,
                    cache_key,
                },
            },
            None => AnalysisStep::Decode { cache_key },
        }
    }

    /// Ends the analysis of `source` with what the decode gave. A summary is
    /// stored under the key of the source and the result is built from it; an
    /// error is handed on and the store stays as it was.
    pub fn complete_analysis(
        &mut self,
        source: &SourceDescriptor,
        decoded: Result<WaveformData, AudioError>,
    ) -> (result: Result<ImportResult, AudioError>)
        ensures
            final(self).peak_entries() == old(self).peak_entries(),
            match decoded {
                Ok(summary) => {
                    &&& result matches Ok(import)
                    &&& import@ == import_of(*source, summary@)
                    &&& final(self).waveforms() == old(self).waveforms().insert(
                        source.key(),
                        summary@,
                    )
                },
                Err(error) => {
                    &&& result matches Err(e)
                    &&& e@ == error@
                    &&& final(self).waveforms() == old(self).waveforms()
                },
            },
    {
        match decoded {
            Ok(summary) => {
                let cache_key: String = derive_key(source);
                let duration_seconds = summary.duration;
                self.waveform_cache.insert(cache_key.clone(), summary);
                Ok(ImportResult { file_path: source.path.clone(), duration_seconds, cache_key })
            },
            Err(error) => Err(error),
        }
    }

    /// A copy of the waveform summary stored under `cache_key`, or the error
    /// that says that there is none.
    pub fn get_waveform(&self, cache_key: &str) -> (result: Result<WaveformData, AudioError>)
        ensures
            self.waveforms().contains_key(cache_key@) <==> result is Ok,
            result matches Ok(summary) ==> summary@ == self.waveforms()[cache_key@],
            result matches Err(error) ==> error@ == ErrorModel::Cache(waveform_not_found_text()),
    {
        match self.waveform_cache.lookup(cache_key) {
            Some(summary) => Ok(summary),
            None => Err(AudioError::Cache(String::from_str("Waveform data not found in cache"))),
        }
    }

    /// A copy of the peaks stored under `cache_key`, or the error that says
    /// that there are none.
    pub fn get_peaks(&self, cache_key: &str) -> (result: Result<PeakCache, AudioError>)
        ensures
            self.peak_entries().contains_key(cache_key@) <==> result is Ok,
            result matches Ok(peaks) ==> peaks@ == self.peak_entries()[cache_key@],
            result matches Err(error) ==> error@ == ErrorModel::Cache(peaks_not_found_text()),
    {
        match self.cache.get(cache_key) {
            Some(peaks) => Ok(peaks.clone()),
            None => Err(AudioError::Cache(String::from_str("Peak data not found in cache"))),
        }
    }
}

/// The store after summaries have been stored one by one, starting empty.
pub open spec fn stored_after(inserted: Seq<(Seq<char>, WaveformModel)>) -> Map<
    Seq<char>,
    WaveformModel,
>
    decreases inserted.len(),
{
    if inserted.len() == 0 {
        Map::empty()
    } else {
        stored_after(inserted.drop_last()).insert(inserted.last().0, inserted.last().1)
    }
}

/// Once the analysis of a source is complete, analyzing the same source again
/// asks for no decode: the result comes from the store, with the same key and
/// the same duration as the first one.
pub proof fn lemma_second_analysis_is_cached(
    waveforms: Map<Seq<char>, WaveformModel>,
    source: SourceDescriptor,
    summary: WaveformModel,
)
    ensures
        first_step(waveforms.insert(source.key(), summary), source) == (AnalysisStepModel::Cached {
            result: import_of(source, summary),
        }),
        import_of(source, summary).cache_key == source.key(),
        import_of(source, summary).duration_seconds == summary.duration,
{
}

/// The analysis of a source with another key changes nothing for this one.
pub proof fn lemma_other_analyses_keep_entries(
    waveforms: Map<Seq<char>, WaveformModel>,
    source: SourceDescriptor,
    other: SourceDescriptor,
    summary: WaveformModel,
)
    requires
        other.key() != source.key(),
    ensures
        first_step(waveforms.insert(other.key(), summary), source) == first_step(
            waveforms,
            source,
        ),
{
}

/// Under a key that was never stored nothing is found.
pub proof fn lemma_never_stored_is_absent(
    inserted: Seq<(Seq<char>, WaveformModel)>,
    key: Seq<char>,
)
    requires
        forall|i: int| 0 <= i < inserted.len() ==> (#[trigger] inserted[i]).0 != key,
    ensures
        !stored_after(inserted).contains_key(key),
    decreases inserted.len(),
{
    if inserted.len() > 0 {
        let front = inserted.drop_last();
        assert forall|i: int| 0 <= i < front.len() implies (#[trigger] front[i]).0 != key by {
            assert(front[i] == inserted[i]);
        }
        lemma_never_stored_is_absent(front, key);
        assert(inserted.last() == inserted[inserted.len() - 1]);
    }
}

/// The error of a look-up that finds nothing is of the kind `NotFound`, and no
/// failure of the decode pipeline is of that kind.
pub proof fn lemma_not_found_is_distinct(state: DecodeStateModel, event: DecodeEventModel)
    requires
        !(state is Failed),
        transition(state, event) is Failed,
    ensures
        ErrorModel::Cache(waveform_not_found_text()).kind_of() == ErrorKind::NotFound,
        ErrorModel::Cache(peaks_not_found_text()).kind_of() == ErrorKind::NotFound,
        transition(state, event)->error.kind_of() != ErrorKind::NotFound,
{
}

} // verus!
