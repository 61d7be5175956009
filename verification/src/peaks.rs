//! Peak reduction: turning interleaved samples into one peak per fixed window.
//!
//! A sample is held as the bit pattern of an IEEE 754 single-precision number
//! (a `u32`). Clearing the sign bit gives the bit pattern of the absolute
//! value, and among patterns with a clear sign bit that are not NaN the
//! unsigned integer order is the numeric order. So the largest absolute value
//! of a window is computed on the integers, with exactly the result that the
//! floating-point computation gives: the fold starts at zero and a NaN sample
//! never replaces the running maximum.
//!
//! The window is counted in interleaved samples, not in frames: with `n`
//! channels a window of `sample_rate / 50` samples spans
//! `sample_rate / (50 * n)` frames. Channels are mixed into one peak.

use crate::error::{AudioError, ErrorModel};
use vstd::prelude::*;

verus! {

/// Peaks per second of audio that a mono stream yields.
pub const PEAKS_PER_SECOND: u32 = 50;

/// Mask that clears the sign bit of a sample.
pub const MAGNITUDE_MASK: u32 = 0x7FFF_FFFF;

/// Bit pattern of positive infinity; every larger magnitude is a NaN.
pub const INFINITY_BITS: u32 = 0x7F80_0000;

/// Bit pattern of the value one, the largest magnitude of a normalized sample.
pub const UNIT_BITS: u32 = 0x3F80_0000;

/// Cause given where a stream has fewer than fifty frames per second, so that
/// a window would hold no sample.
pub open spec fn low_rate_text() -> Seq<char> {
    "Sample rate is below 50 frames per second"@
}

/// Bit pattern of the absolute value of `sample`.
pub open spec fn magnitude(sample: u32) -> u32 {
    sample & MAGNITUDE_MASK
}

/// Whether `sample` is a NaN.
pub open spec fn is_nan(sample: u32) -> bool {
    magnitude(sample) > INFINITY_BITS
}

/// The running maximum after `sample` has been seen: the larger of `acc` and
/// the sample's magnitude, where a NaN sample leaves `acc` as it is.
pub open spec fn fold_sample(acc: u32, sample: u32) -> u32 {
    if is_nan(sample) || magnitude(sample) <= acc {
        acc
    } else {
        magnitude(sample)
    }
}

/// The peak of one window: the largest magnitude among its samples that are
/// not NaN, and zero where there is none.
pub open spec fn window_peak(window: Seq<u32>) -> u32
    decreases window.len(),
{
    if window.len() == 0 {
        0
    } else {
        fold_sample(window_peak(window.drop_last()), window.last())
    }
}

/// Number of samples in one window at `sample_rate`.
pub open spec fn window_len(sample_rate: u32) -> nat {
    (sample_rate / PEAKS_PER_SECOND) as nat
}

/// Number of windows that `n` samples fall into: `n / window`, rounded up.
pub open spec fn window_count(n: nat, window: nat) -> nat {
    if window == 0 {
        0
    } else {
        ((n + window - 1) / (window as int)) as nat
    }
}

/// The `i`-th window of a packet. The last one may be shorter than `window`.
pub open spec fn window_at(samples: Seq<u32>, window: nat, i: int) -> Seq<u32> {
    let end = if (i + 1) * window <= samples.len() {
        (i + 1) * window
    } else {
        samples.len() as int
    };
    samples.subrange(i * window, end)
}

/// The peaks of one decoded packet: one per window, in order.
pub open spec fn packet_peaks(samples: Seq<u32>, window: nat) -> Seq<u32> {
    Seq::new(window_count(samples.len(), window), |i: int| window_peak(window_at(samples, window, i)))
}

/// The peaks of a stream: those of its packets, one packet after the other.
/// Windows never reach across a packet boundary.
pub open spec fn stream_peaks(packets: Seq<Seq<u32>>, window: nat) -> Seq<u32>
    decreases packets.len(),
{
    if packets.len() == 0 {
        Seq::empty()
    } else {
        stream_peaks(packets.drop_last(), window) + packet_peaks(packets.last(), window)
    }
}

/// Number of samples in all packets of a stream.
pub open spec fn stream_len(packets: Seq<Seq<u32>>) -> nat
    decreases packets.len(),
{
    if packets.len() == 0 {
        0
    } else {
        stream_len(packets.drop_last()) + packets.last().len()
    }
}

/// Window size, in interleaved samples, for a stream at `sample_rate`.
pub fn window_size(sample_rate: u32) -> (window: usize)
    ensures
        window == window_len(sample_rate),
        window > 0 <==> sample_rate >= PEAKS_PER_SECOND,
{
    (sample_rate / PEAKS_PER_SECOND) as usize
}

/// Peak of the samples from `start` up to `end`.
pub fn peak_of_window(samples: &[u32], start: usize, end: usize) -> (peak: u32)
    requires
        start <= end <= samples.len(),
    ensures
        peak == window_peak(samples@.subrange(start as int, end as int)),
{
    let mut peak: u32 = 0;
    let mut i: usize = start;
    while i < end
        invariant
            start <= i <= end <= samples.len(),
            peak == window_peak(samples@.subrange(start as int, i as int)),
        decreases end - i,
    {
        let m: u32 = samples[i] & MAGNITUDE_MASK;
        proof {
            let next = samples@.subrange(start as int, i + 1);
            assert(next.drop_last() =~= samples@.subrange(start as int, i as int));
            assert(next.last() == samples@[i as int]);
        }
        if m <= INFINITY_BITS && m > peak {
            peak = m;
        }
        i += 1;
    }
    peak
}

/// `window_count(n, window)` is the one `k` with `(k - 1) * window < n <= k * window`.
pub proof fn lemma_window_count_unique(n: nat, window: nat, k: int)
    requires
        window > 0,
        (k - 1) * window < n <= k * window,
    ensures
        window_count(n, window) == k,
{
    let w = window as int;
    let m = n as int + w - 1;
    assert((k + 1) * w == k * w + w && (k - 1) * w == k * w - w) by (nonlinear_arith);
    assert(m / w == k) by (nonlinear_arith)
        requires
            w > 0,
            k * w <= m < (k + 1) * w,
    ;
}

/// Every window that starts inside the packet is counted.
pub proof fn lemma_window_count_above(n: nat, window: nat, k: int)
    requires
        window > 0,
        0 <= k,
        k * window < n,
    ensures
        k < window_count(n, window),
{
    let w = window as int;
    let m = n as int + w - 1;
    assert((k + 1) * w == k * w + w) by (nonlinear_arith);
    assert(m / w > k) by (nonlinear_arith)
        requires
            w > 0,
            m >= (k + 1) * w,
    ;
}

/// A window that is counted starts inside the packet.
pub proof fn lemma_window_start_inside(n: nat, window: nat, j: int)
    requires
        window > 0,
        0 <= j < window_count(n, window),
    ensures
        0 <= j * window < n,
{
    let w = window as int;
    let m = n as int + w - 1;
    let c = m / w;
    assert(c * w <= m && 0 <= j * w <= (c - 1) * w && (c - 1) * w == c * w - w) by (nonlinear_arith)
        requires
            w > 0,
            m >= 0,
            c == m / w,
            0 <= j <= c - 1,
    ;
}

/// The number of peaks of a packet is its number of samples divided by the
/// window, rounded up: no peak for no sample, and otherwise the one count
/// whose windows cover the packet with the last window not empty.
pub proof fn lemma_packet_peak_count(samples: Seq<u32>, window: nat)
    requires
        window > 0,
    ensures
        packet_peaks(samples, window).len() == window_count(samples.len(), window),
        samples.len() == 0 ==> packet_peaks(samples, window).len() == 0,
        samples.len() > 0 ==> (packet_peaks(samples, window).len() - 1) * window < samples.len()
            <= packet_peaks(samples, window).len() * window,
        samples.len() % window == 0 ==> packet_peaks(samples, window).len() * window
            == samples.len(),
{
    let n = samples.len();
    let w = window as int;
    let m = n as int + w - 1;
    let c = m / w;
    assert(c * w <= m < c * w + w && (c - 1) * w == c * w - w) by (nonlinear_arith)
        requires
            w > 0,
            m >= 0,
            c == m / w,
    ;
    if n == 0 {
        lemma_window_count_unique(0, window, 0);
    }
    if n as int % w == 0 {
        let q = n as int / w;
        assert(q * w == n && (q - 1) * w == q * w - w) by (nonlinear_arith)
            requires
                w > 0,
                n as int % w == 0,
                q == n as int / w,
        ;
        lemma_window_count_unique(n, window, q);
    }
}

/// Where all packets but the last hold a whole number of windows, the stream
/// yields as many peaks as its total number of samples divided by the window,
/// rounded up. For a mono stream the samples are the frames.
pub proof fn lemma_stream_peak_count(packets: Seq<Seq<u32>>, window: nat)
    requires
        window > 0,
        forall|i: int| 0 <= i < packets.len() - 1 ==> (#[trigger] packets[i]).len() % window == 0,
    ensures
        stream_peaks(packets, window).len() == window_count(stream_len(packets), window),
    decreases packets.len(),
{
    if packets.len() == 0 {
        lemma_window_count_unique(0, window, 0);
    } else {
        lemma_whole_windows_count(packets.drop_last(), window);
        lemma_packet_peak_count(packets.last(), window);
        let before = stream_len(packets.drop_last());
        let k = stream_peaks(packets.drop_last(), window).len() as int;
        let c = window_count(packets.last().len(), window) as int;
        let n = packets.last().len();
        assert((k + c) * window == k * window + c * window && (k + c - 1) * window == k * window
            + (c - 1) * window) by (nonlinear_arith);
        if n == 0 {
            lemma_window_count_whole(before, window, k);
        } else {
            lemma_window_count_unique(before + n, window, k + c);
        }
    }
}

/// A packet of `k` whole windows has `k` windows.
pub proof fn lemma_window_count_whole(n: nat, window: nat, k: int)
    requires
        window > 0,
        0 <= k,
        k * window == n,
    ensures
        window_count(n, window) == k,
{
    let w = window as int;
    let m = n as int + w - 1;
    assert(m / w == k) by (nonlinear_arith)
        requires
            w > 0,
            0 <= k,
            m == k * w + w - 1,
    ;
}

/// A stream of packets that each hold a whole number of windows yields exactly
/// one peak per window of its samples.
pub proof fn lemma_whole_windows_count(packets: Seq<Seq<u32>>, window: nat)
    requires
        window > 0,
        forall|i: int| 0 <= i < packets.len() ==> (#[trigger] packets[i]).len() % window == 0,
    ensures
        stream_peaks(packets, window).len() * window == stream_len(packets),
    decreases packets.len(),
{
    if packets.len() > 0 {
        lemma_whole_windows_count(packets.drop_last(), window);
        lemma_packet_peak_count(packets.last(), window);
        let k = stream_peaks(packets.drop_last(), window).len() as int;
        let c = packet_peaks(packets.last(), window).len() as int;
        assert((k + c) * window == k * window + c * window) by (nonlinear_arith);
    }
}

/// The peak of a window is never a NaN and never negative; it is at least the
/// magnitude of every sample of the window that is not NaN; and it is zero or
/// the magnitude of such a sample.
pub proof fn lemma_window_peak_is_maximum(window: Seq<u32>)
    ensures
        window_peak(window) <= INFINITY_BITS,
        forall|i: int|
            0 <= i < window.len() && !is_nan(window[i]) ==> magnitude(#[trigger] window[i])
                <= window_peak(window),
        window_peak(window) == 0 || exists|i: int|
            0 <= i < window.len() && !is_nan(window[i]) && magnitude(#[trigger] window[i])
                == window_peak(window),
    decreases window.len(),
{
    if window.len() > 0 {
        let front = window.drop_last();
        lemma_window_peak_is_maximum(front);
        assert forall|i: int| 0 <= i < window.len() && !is_nan(window[i]) implies magnitude(
            #[trigger] window[i],
        ) <= window_peak(window) by {
            if i < front.len() {
                assert(front[i] == window[i]);
            }
        }
        if window_peak(window) != 0 {
            if window_peak(window) == window_peak(front) {
                let i = choose|i: int|
                    0 <= i < front.len() && !is_nan(front[i]) && magnitude(#[trigger] front[i])
                        == window_peak(front);
                assert(window[i] == front[i]);
            } else {
                assert(magnitude(window[window.len() - 1]) == window_peak(window));
            }
        }
    }
}

/// Every peak of a packet is bounded by what bounds the magnitudes of its
/// samples, NaNs left aside.
pub proof fn lemma_packet_peaks_bounded(samples: Seq<u32>, window: nat, bound: u32)
    requires
        forall|i: int|
            0 <= i < samples.len() && !is_nan(samples[i]) ==> magnitude(#[trigger] samples[i])
                <= bound,
    ensures
        forall|j: int|
            0 <= j < packet_peaks(samples, window).len() ==> #[trigger] packet_peaks(
                samples,
                window,
            )[j] <= bound,
{
    let peaks = packet_peaks(samples, window);
    assert forall|j: int| 0 <= j < peaks.len() implies #[trigger] peaks[j] <= bound by {
        let cut = window_at(samples, window, j);
        lemma_window_start_inside(samples.len(), window, j);
        lemma_window_peak_is_maximum(cut);
        assert((j + 1) * window == j * window + window) by (nonlinear_arith);
        if window_peak(cut) != 0 {
            let i = choose|i: int|
                0 <= i < cut.len() && !is_nan(cut[i]) && magnitude(#[trigger] cut[i])
                    == window_peak(cut);
            assert(cut[i] == samples[j * window + i]);
        }
    }
}

/// Every peak of a stream is bounded by what bounds the magnitudes of its
/// samples, NaNs left aside.
pub proof fn lemma_stream_peaks_bounded(packets: Seq<Seq<u32>>, window: nat, bound: u32)
    requires
        forall|p: int, i: int|
            0 <= p < packets.len() && 0 <= i < packets[p].len() && !is_nan(packets[p][i])
                ==> magnitude(#[trigger] packets[p][i]) <= bound,
    ensures
        forall|j: int|
            0 <= j < stream_peaks(packets, window).len() ==> #[trigger] stream_peaks(
                packets,
                window,
            )[j] <= bound,
    decreases packets.len(),
{
    if packets.len() > 0 {
        let front = packets.drop_last();
        assert forall|p: int, i: int|
            0 <= p < front.len() && 0 <= i < front[p].len() && !is_nan(front[p][i]) implies magnitude(
            #[trigger] front[p][i],
        ) <= bound by {
            assert(front[p] == packets[p]);
        }
        lemma_stream_peaks_bounded(front, window, bound);
        lemma_packet_peaks_bounded(packets.last(), window, bound);
        let head = stream_peaks(front, window);
        let tail = packet_peaks(packets.last(), window);
        assert forall|j: int| 0 <= j < (head + tail).len() implies #[trigger] (head + tail)[j]
            <= bound by {
            if j < head.len() {
                assert((head + tail)[j] == head[j]);
            } else {
                assert((head + tail)[j] == tail[j - head.len()]);
            }
        }
    }
}

/// Whether every sample that is not NaN lies between minus one and one.
pub open spec fn normalized(packets: Seq<Seq<u32>>) -> bool {
    forall|p: int, i: int|
        0 <= p < packets.len() && 0 <= i < packets[p].len() && !is_nan(packets[p][i])
            ==> magnitude(#[trigger] packets[p][i]) <= UNIT_BITS
}

/// Every peak of a normalized stream lies between zero and one.
pub proof fn lemma_normalized_peaks_in_unit_range(packets: Seq<Seq<u32>>, window: nat)
    requires
        normalized(packets),
    ensures
        forall|j: int|
            0 <= j < stream_peaks(packets, window).len() ==> #[trigger] stream_peaks(
                packets,
                window,
            )[j] <= UNIT_BITS,
{
    lemma_stream_peaks_bounded(packets, window, UNIT_BITS);
}

/// Appends to `peaks` the peaks of a packet cut into windows of `window`
/// samples.
fn push_window_peaks(peaks: &mut Vec<u32>, samples: &[u32], window: usize)
    requires
        window > 0,
    ensures
        final(peaks)@ == old(peaks)@ + packet_peaks(samples@, window as nat),
{
    let n: usize = samples.len();
    let mut start: usize = 0;
    let ghost mut k: int = 0;
    proof {
        if n == 0 {
            lemma_window_count_unique(0, window as nat, 0);
        }
        assert(packet_peaks(samples@, window as nat).take(0) =~= Seq::<u32>::empty());
        assert(peaks@ =~= old(peaks)@ + Seq::<u32>::empty());
    }
    while start < n
        invariant
            window > 0,
            n == samples.len(),
            0 <= k,
            start <= n,
            start < n ==> start == k * window,
            start == n ==> k == window_count(n as nat, window as nat),
            k <= window_count(n as nat, window as nat),
            peaks@ == old(peaks)@ + packet_peaks(samples@, window as nat).take(k),
        decreases n - start,
    {
        let end: usize = if n - start > window {
            start + window
        } else {
            n
        };
        let peak: u32 = peak_of_window(samples, start, end);
        peaks.push(peak);
        proof {
            let w = window as nat;
            let all = packet_peaks(samples@, w);
            assert((k + 1) * w == k * w + w) by (nonlinear_arith);
            lemma_window_count_above(n as nat, w, k);
            assert(window_at(samples@, w, k) == samples@.subrange(start as int, end as int));
            assert(all[k] == peak);
            assert(all.take(k + 1) =~= all.take(k).push(peak));
            if end == n {
                lemma_window_count_unique(n as nat, w, k + 1);
            } else {
                lemma_window_count_above(n as nat, w, k + 1);
            }
            k = k + 1;
        }
        start = end;
    }
    proof {
        let all = packet_peaks(samples@, window as nat);
        assert(all.take(k) =~= all);
    }
}

/// Appends the peaks of one decoded packet to `peaks`: the packet is cut into
/// windows of a fiftieth of `sample_rate` samples, the last of which may be
/// shorter, and each window contributes its peak. A stream of fewer than fifty
/// frames per second is refused and `peaks` stays as it was.
pub fn append_packet_peaks(peaks: &mut Vec<u32>, samples: &[u32], sample_rate: u32) -> (result:
    Result<(), AudioError>)
    ensures
        sample_rate >= PEAKS_PER_SECOND ==> result is Ok && final(peaks)@ == old(peaks)@
            + packet_peaks(samples@, window_len(sample_rate)),
        sample_rate < PEAKS_PER_SECOND ==> (result matches Err(e) && e@ == ErrorModel::Processing(
            low_rate_text(),
        )) && final(peaks)@ == old(peaks)@,
{
    if sample_rate < PEAKS_PER_SECOND {
        return Err(
            AudioError::Processing(String::from_str("Sample rate is below 50 frames per second")),
        );
    }
    push_window_peaks(peaks, samples, window_size(sample_rate));
    Ok(())
}

/// The peaks of one decoded packet at `sample_rate`, or the refusal of a
/// stream of fewer than fifty frames per second.
pub fn reduce_packet(samples: &[u32], sample_rate: u32) -> (result: Result<Vec<u32>, AudioError>)
    ensures
        sample_rate >= PEAKS_PER_SECOND ==> (result matches Ok(peaks) && peaks@ == packet_peaks(
            samples@,
            window_len(sample_rate),
        )),
        sample_rate < PEAKS_PER_SECOND ==> (result matches Err(e) && e@ == ErrorModel::Processing(
            low_rate_text(),
        )),
{
    let mut peaks: Vec<u32> = Vec::new();
    match append_packet_peaks(&mut peaks, samples, sample_rate) {
        Ok(()) => Ok(peaks),
        Err(e) => Err(e),
    }
}

} // verus!
