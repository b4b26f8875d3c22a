//! Integer decisions of the tempo estimator: envelope decimation, the lag
//! range of the autocorrelation scan, the short window's length and the
//! arbitration between the long and short analysis windows.
use vstd::prelude::*;
use crate::harmonics::abs_diff;
use crate::lock::sat_inc;

verus! {

/// Envelope sample rate in Hz.
pub const DS_RATE: u32 = 200;

/// Slowest tempo the scan looks for, in BPM.
pub const MIN_BPM: u32 = 91;

/// Fastest tempo the scan looks for, in BPM.
pub const MAX_BPM: u32 = 180;

/// Default tempo assumed for the short window before any estimate (milli-BPM).
pub const DEFAULT_LAST_BPM: u32 = 140000;

/// A raw per-hop tempo estimate.
#[derive(Clone, Copy, Debug, PartialEq, Eq, Structural)]
pub struct BpmEstimate {
    pub bpm_milli: u32,
    /// Confidence in basis points.
    pub confidence: u32,
    /// Whether the short analysis window supplied it.
    pub from_short: bool,
    /// Length of the analysed slice in ms.
    pub win_ms: u32,
}

/// The result of analysing one envelope slice.
#[derive(Clone, Copy, Debug, PartialEq, Eq, Structural)]
pub struct SliceEstimate {
    pub bpm_milli: u32,
    pub confidence: u32,
    pub win_ms: u32,
}

/// round(sample_rate / 200), at least 1: input samples per envelope sample.
pub open spec fn spec_decimation(sample_rate: int) -> int {
    if (sample_rate + 100) / 200 >= 1 {
        (sample_rate + 100) / 200
    } else {
        1
    }
}

pub fn decimation(sample_rate: u32) -> (r: u32)
    ensures
        r as int == spec_decimation(sample_rate as int),
        r >= 1,
{
    let d: u32 = ((sample_rate as u64 + 100) / 200) as u32;
    if d >= 1 {
        d
    } else {
        1
    }
}

/// round(200 * 60 / bpm): the envelope lag of one beat at `bpm` (whole BPM).
pub open spec fn spec_lag_for_bpm(bpm: int) -> int {
    (2 * DS_RATE * 60 + bpm) / (2 * bpm)
}

pub fn lag_for_bpm(bpm: u32) -> (r: u32)
    requires
        bpm > 0,
    ensures
        r as int == spec_lag_for_bpm(bpm as int),
{
    let num: u64 = 2 * 12000u64 + bpm as u64;
    let den: u64 = 2 * bpm as u64;
    let q: u64 = num / den;
    assert(q * 2 <= num) by (nonlinear_arith)
        requires
            den >= 2,
            q == num / den,
    ;
    q as u32
}

/// The lag range of the autocorrelation scan: from the fastest tempo's lag to
/// the slowest one's.
pub fn lag_range() -> (r: (u32, u32))
    ensures
        r.0 as int == spec_lag_for_bpm(MAX_BPM as int),
        r.1 as int == spec_lag_for_bpm(MIN_BPM as int),
        r == (67u32, 132u32),
{
    let a = lag_for_bpm(MAX_BPM);
    let b = lag_for_bpm(MIN_BPM);
    assert(24180int / 360 == 67);
    assert(24091int / 182 == 132);
    (a, b)
}

pub open spec fn clamp(x: int, lo: int, hi: int) -> int {
    if x < lo {
        lo
    } else if x > hi {
        hi
    } else {
        x
    }
}

/// Envelope samples in the short window: 2.5 beats of the last tempo (140 BPM
/// before any), clamped to [91, 180] BPM, and the length clamped to 2–4 s.
pub open spec fn spec_short_len(last_bpm: Option<u32>) -> int {
    let base = clamp(
        match last_bpm {
            Some(b) => b as int,
            None => DEFAULT_LAST_BPM as int,
        },
        MIN_BPM * 1000,
        MAX_BPM * 1000,
    );
    let ms = clamp(150_000_000int / base, 2000, 4000);
    (ms + 2) / 5
}

/// Shortest slice worth analysing: 1.6 s of envelope.
pub const MIN_SLICE_LEN: usize = 320;

/// Whether `n_peaks` onset peaks in a slice of `slice_len` envelope samples
/// pass the peak gates: at least two peaks (four on slices of 3.5 s or more),
/// and between 0.2 and 14 peaks per second.
pub open spec fn spec_peaks_admit(n_peaks: int, slice_len: int) -> bool {
    &&& n_peaks >= 2
    &&& slice_len >= 700 ==> n_peaks >= 4
    &&& 1000 * n_peaks >= slice_len
    &&& 200 * n_peaks <= 14 * slice_len
}

pub fn peaks_admit(n_peaks: usize, slice_len: usize) -> (r: bool)
    ensures
        r == spec_peaks_admit(n_peaks as int, slice_len as int),
{
    let n = n_peaks as u128;
    let len = slice_len as u128;
    n >= 2 && (len < 700 || n >= 4) && 1000 * n >= len && 200 * n <= 14 * len
}

/// Largest peak index the IOI gate takes (far beyond a 4 s envelope).
pub const MAX_PEAK_INDEX: usize = 1_000_000;

/// Sum of the first `k` inter-onset intervals of the peak positions `p`.
pub open spec fn ioi_sum(p: Seq<usize>, k: int) -> int
    decreases k,
{
    if k <= 0 {
        0
    } else {
        ioi_sum(p, k - 1) + (p[k] - p[k - 1])
    }
}

/// Sum of the squares of the first `k` inter-onset intervals.
pub open spec fn ioi_sum_sq(p: Seq<usize>, k: int) -> int
    decreases k,
{
    if k <= 0 {
        0
    } else {
        ioi_sum_sq(p, k - 1) + (p[k] - p[k - 1]) * (p[k] - p[k - 1])
    }
}

/// The inter-onset intervals are regular enough: with four peaks or more,
/// their coefficient of variation is at most 0.65, that is
/// m·Σd² − (Σd)² ≤ 0.4225·(Σd)² over the m intervals d.
pub open spec fn spec_ioi_regular(p: Seq<usize>) -> bool {
    let m = p.len() - 1;
    let sum = ioi_sum(p, m);
    p.len() < 4 || sum == 0 || 10000 * (m * ioi_sum_sq(p, m) - sum * sum) <= 4225 * (sum * sum)
}

/// Whether the peak positions (strictly increasing) pass the IOI-stability
/// gate.
pub fn ioi_regular(peaks: &Vec<usize>) -> (r: bool)
    requires
        peaks@.len() <= MAX_PEAK_INDEX,
        forall|i: int| 0 <= i < peaks@.len() ==> #[trigger] peaks@[i] < MAX_PEAK_INDEX,
        forall|i: int| 0 < i < peaks@.len() ==> peaks@[i - 1] < #[trigger] peaks@[i],
    ensures
        r == spec_ioi_regular(peaks@),
{
    let n = peaks.len();
    if n < 4 {
        return true;
    }
    let mut sum: u128 = 0;
    let mut sum_sq: u128 = 0;
    let mut k: usize = 1;
    while k < n
        invariant
            n == peaks@.len(),
            4 <= n <= MAX_PEAK_INDEX,
            1 <= k <= n,
            forall|i: int| 0 <= i < peaks@.len() ==> #[trigger] peaks@[i] < MAX_PEAK_INDEX,
            forall|i: int| 0 < i < peaks@.len() ==> peaks@[i - 1] < #[trigger] peaks@[i],
            sum as int == ioi_sum(peaks@, k - 1),
            sum_sq as int == ioi_sum_sq(peaks@, k - 1),
            sum <= (k - 1) * MAX_PEAK_INDEX,
            sum_sq <= (k - 1) * 1_000_000_000_000,
        decreases n - k,
    {
        let d: u128 = (peaks[k] - peaks[k - 1]) as u128;
        assert(d * d <= 1_000_000_000_000) by (nonlinear_arith)
            requires
                d < 1_000_000,
        ;
        sum = sum + d;
        sum_sq = sum_sq + d * d;
        k = k + 1;
    }
    let m: u128 = (n - 1) as u128;
    if sum == 0 {
        return true;
    }
    assert(m * sum_sq <= 1_000_000 * (1_000_000 * 1_000_000_000_000)) by (nonlinear_arith)
        requires
            m <= 1_000_000,
            sum_sq <= 1_000_000 * 1_000_000_000_000,
    ;
    assert(sum * sum <= 1_000_000_000_000 * 1_000_000_000_000) by (nonlinear_arith)
        requires
            sum <= 1_000_000 * 1_000_000,
    ;
    if m * sum_sq < sum * sum {
        return true;
    }
    10000 * (m * sum_sq - sum * sum) <= 4225 * (sum * sum)
}

/// State of the long/short window arbitration.
#[derive(Clone, Copy, Debug, PartialEq, Eq, Structural)]
pub struct WindowArbiter {
    pub last_short_bpm: Option<u32>,
    /// Consecutive hops on which the short window agreed within 3 %.
    pub short_consistency: u8,
    /// The last tempo handed out.
    pub last_bpm: Option<u32>,
}

pub open spec fn as_estimate(e: SliceEstimate, from_short: bool) -> BpmEstimate {
    BpmEstimate { bpm_milli: e.bpm_milli, confidence: e.confidence, from_short, win_ms: e.win_ms }
}

/// One arbitration step: the new state and the chosen estimate. With both
/// windows present, the short one wins when it differs from the long one by
/// more than 6 %, has at least 75 % of its confidence, and agreed within 3 %
/// with the short window of the previous hop.
pub open spec fn spec_arbitrate(
    s: WindowArbiter,
    long: Option<SliceEstimate>,
    short: Option<SliceEstimate>,
) -> (WindowArbiter, Option<BpmEstimate>) {
    let (s1, r) = match (long, short) {
        (Some(l), Some(sh)) => {
            let bl = l.bpm_milli as int;
            let bs = sh.bpm_milli as int;
            let diverge = abs_diff(bs, bl) * 100 > 6 * bl;
            let cons = match s.last_short_bpm {
                Some(p) => if abs_diff(bs, p as int) * 100 <= 3 * bs {
                    sat_inc(s.short_consistency)
                } else {
                    1
                },
                None => 1,
            };
            let s1 = WindowArbiter { last_short_bpm: Some(sh.bpm_milli), short_consistency: cons, ..s };
            if diverge && sh.confidence as int * 4 >= l.confidence as int * 3 && cons >= 2 {
                (s1, Some(as_estimate(sh, true)))
            } else {
                (s1, Some(as_estimate(l, false)))
            }
        },
        (Some(l), None) => (s, Some(as_estimate(l, false))),
        (None, Some(sh)) => (s, Some(as_estimate(sh, true))),
        (None, None) => (s, None),
    };
    match r {
        Some(e) => (WindowArbiter { last_bpm: Some(e.bpm_milli), ..s1 }, r),
        None => (s1, r),
    }
}

fn diff_u64(a: u64, b: u64) -> (r: u64)
    ensures
        r as int == abs_diff(a as int, b as int),
{
    if a >= b {
        a - b
    } else {
        b - a
    }
}

impl WindowArbiter {
    pub fn new() -> (r: WindowArbiter)
        ensures
            r == (WindowArbiter { last_short_bpm: None, short_consistency: 0, last_bpm: None }),
    {
        WindowArbiter { last_short_bpm: None, short_consistency: 0, last_bpm: None }
    }

    /// Length of the short analysis window in envelope samples.
    pub fn short_window_len(&self) -> (r: usize)
        ensures
            r as int == spec_short_len(self.last_bpm),
    {
        let mut base: u64 = match self.last_bpm {
            Some(b) => b as u64,
            None => DEFAULT_LAST_BPM as u64,
        };
        if base < MIN_BPM as u64 * 1000 {
            base = MIN_BPM as u64 * 1000;
        } else if base > MAX_BPM as u64 * 1000 {
            base = MAX_BPM as u64 * 1000;
        }
        let mut ms: u64 = 150_000_000 / base;
        if ms < 2000 {
            ms = 2000;
        } else if ms > 4000 {
            ms = 4000;
        }
        ((ms + 2) / 5) as usize
    }

    /// Chooses between the long and the short window's estimates.
    pub fn arbitrate(&mut self, long: Option<SliceEstimate>, short: Option<SliceEstimate>) -> (r:
        Option<BpmEstimate>)
        ensures
            (*final(self), r) == spec_arbitrate(*old(self), long, short),
    {
        let r = match (long, short) {
            (Some(l), Some(sh)) => {
                let bl = l.bpm_milli as u64;
                let bs = sh.bpm_milli as u64;
                let diverge = diff_u64(bs, bl) * 100 > 6 * bl;
                let cons: u8 = match self.last_short_bpm {
                    Some(p) => if diff_u64(bs, p as u64) * 100 <= 3 * bs {
                        if self.short_consistency < 255 {
                            self.short_consistency + 1
                        } else {
                            255
                        }
                    } else {
                        1
                    },
                    None => 1,
                };
                self.last_short_bpm = Some(sh.bpm_milli);
                self.short_consistency = cons;
                if diverge && sh.confidence as u64 * 4 >= l.confidence as u64 * 3 && cons >= 2 {
                    Some(
                        BpmEstimate {
                            bpm_milli: sh.bpm_milli,
                            confidence: sh.confidence,
                            from_short: true,
                            win_ms: sh.win_ms,
                        },
                    )
                } else {
                    Some(
                        BpmEstimate {
                            bpm_milli: l.bpm_milli,
                            confidence: l.confidence,
                            from_short: false,
                            win_ms: l.win_ms,
                        },
                    )
                }
            },
            (Some(l), None) => Some(
                BpmEstimate {
                    bpm_milli: l.bpm_milli,
                    confidence: l.confidence,
                    from_short: false,
                    win_ms: l.win_ms,
                },
            ),
            (None, Some(sh)) => Some(
                BpmEstimate {
                    bpm_milli: sh.bpm_milli,
                    confidence: sh.confidence,
                    from_short: true,
                    win_ms: sh.win_ms,
                },
            ),
            (None, None) => None,
        };
        if let Some(e) = r {
            self.last_bpm = Some(e.bpm_milli);
        }
        r
    }
}

} // verus!
