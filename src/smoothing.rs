//! Smoothing of the corrected tempo: the median of the recent values, an
//! exponential moving average of it, and an alpha-beta tracker (all in
//! milli-BPM).
use vstd::prelude::*;
use vstd::relations::{sorted_by, total_ordering};

verus! {

broadcast use vstd::seq_lib::group_to_multiset_ensures;

/// The usual order on `u32`.
pub open spec fn le_u32() -> spec_fn(u32, u32) -> bool {
    |a: u32, b: u32| a <= b
}

/// The median of a non-empty sequence: its middle element once sorted (the
/// upper one of the two middle elements for an even length).
pub open spec fn spec_median(v: Seq<u32>) -> u32 {
    v.sort_by(le_u32())[v.len() as int / 2]
}

pub proof fn lemma_le_u32_total()
    ensures
        total_ordering(le_u32()),
{
}

/// A sorted copy of `v`.
pub fn sorted_copy(v: &Vec<u32>) -> (r: Vec<u32>)
    ensures
        r@ == v@.sort_by(le_u32()),
{
    let mut out: Vec<u32> = Vec::new();
    let mut i: usize = 0;
    while i < v.len()
        invariant
            i <= v@.len(),
            sorted_by(out@, le_u32()),
            out@.to_multiset() == v@.subrange(0, i as int).to_multiset(),
        decreases v@.len() - i,
    {
        let x = v[i];
        let mut pos: usize = 0;
        while pos < out.len() && out[pos] <= x
            invariant
                pos <= out@.len(),
                forall|j: int| 0 <= j < pos ==> out@[j] <= x,
            decreases out@.len() - pos,
        {
            pos = pos + 1;
        }
        let ghost before = out@;
        out.insert(pos, x);
        proof {
            before.insert_ensures(pos as int, x);
            assert(pos < before.len() ==> before[pos as int] > x);
            assert forall|a: int, b: int| 0 <= a < b < out@.len() implies #[trigger] (le_u32())(
                out@[a],
                out@[b],
            ) by {
                if b < pos {
                    assert((le_u32())(before[a], before[b]));
                } else if b == pos {
                } else {
                    if b - 1 > pos {
                        assert((le_u32())(before[pos as int], before[b - 1]));
                    }
                    if a < pos {
                    } else if a == pos {
                    } else {
                        assert((le_u32())(before[a - 1], before[b - 1]));
                    }
                }
            }
            assert(v@.subrange(0, i + 1) =~= v@.subrange(0, i as int).push(x));
        }
        i = i + 1;
    }
    proof {
        assert(v@.subrange(0, v@.len() as int) =~= v@);
        lemma_le_u32_total();
        v@.lemma_sort_by_ensures(le_u32());
        vstd::seq_lib::lemma_sorted_unique(out@, v@.sort_by(le_u32()), le_u32());
    }
    out
}

/// The median of a non-empty list.
pub fn median(v: &Vec<u32>) -> (r: u32)
    requires
        v@.len() > 0,
    ensures
        r == spec_median(v@),
{
    let s = sorted_copy(v);
    proof {
        lemma_le_u32_total();
        v@.lemma_sort_by_ensures(le_u32());
        assert(s@.to_multiset().len() == s@.len());
        assert(v@.to_multiset().len() == v@.len());
    }
    let n = s.len();
    s[n / 2]
}

/// Bound on the tracker's position and velocity (about 8.6 million BPM): a
/// guard against runaway values far outside any tempo.
pub const TRACK_BOUND: i64 = 8_589_934_592;

/// Division rounding toward zero.
pub open spec fn tdiv(n: int, d: int) -> int {
    if n >= 0 {
        n / d
    } else {
        -((-n) / d)
    }
}

pub open spec fn clamp_track(x: int) -> int {
    if x < -TRACK_BOUND {
        -TRACK_BOUND
    } else if x > TRACK_BOUND {
        TRACK_BOUND as int
    } else {
        x
    }
}

/// Gain scale of the tracker in percent: 60 below confidence 0.70, 80 below
/// 0.80, else 100.
pub open spec fn gain_scale(conf: u32) -> int {
    if conf < 7000 {
        60
    } else if conf < 8000 {
        80
    } else {
        100
    }
}

/// Smoothing state: the smoothed display value and the alpha-beta tracker's
/// position and velocity (milli-BPM, milli-BPM per second).
#[derive(Clone, Copy, Debug, PartialEq, Eq, Structural)]
pub struct Smoother {
    pub ema: Option<i64>,
    pub x: Option<i64>,
    pub v: i64,
}

/// One smoothing step on the median `mid` of the recent values: the moving
/// average takes 0.15 of the median; the tracker, over a 0.5 s step with gains
/// 0.28 and 0.06 scaled by `gain_scale`, follows the average; below confidence
/// 0.80 the tracker's position becomes the smoothed value.
#[verifier::opaque]
pub open spec fn spec_smooth_step(s: Smoother, mid: u32, conf: u32) -> Smoother {
    let e: int = match s.ema {
        Some(p) => tdiv(85 * p + 15 * mid, 100),
        None => mid as int,
    };
    let (x0, v0): (int, int) = match s.x {
        Some(x) => (x as int, s.v as int),
        None => (e, 0),
    };
    let xp = x0 + tdiv(v0, 2);
    let r = e - xp;
    let g = gain_scale(conf);
    let x1 = clamp_track(xp + tdiv(28 * g * r, 10000));
    let v1 = clamp_track(v0 + tdiv(12 * g * r, 10000));
    Smoother {
        ema: Some(
            if conf < 8000 {
                x1 as i64
            } else {
                e as i64
            },
        ),
        x: Some(x1 as i64),
        v: v1 as i64,
    }
}

fn tdiv_i64(n: i64, d: i64) -> (r: i64)
    requires
        d > 0,
        n > i64::MIN,
    ensures
        r as int == tdiv(n as int, d as int),
{
    if n >= 0 {
        n / d
    } else {
        -((-n) / d)
    }
}

fn clamp_i64(x: i64) -> (r: i64)
    ensures
        r as int == clamp_track(x as int),
{
    if x < -TRACK_BOUND {
        -TRACK_BOUND
    } else if x > TRACK_BOUND {
        TRACK_BOUND
    } else {
        x
    }
}

impl Smoother {
    pub open spec fn wf(&self) -> bool {
        &&& self.ema matches Some(e) ==> -TRACK_BOUND <= e <= TRACK_BOUND
        &&& self.x matches Some(x) ==> -TRACK_BOUND <= x <= TRACK_BOUND
        &&& -TRACK_BOUND <= self.v <= TRACK_BOUND
    }

    pub open spec fn spec_new() -> Smoother {
        Smoother { ema: None, x: None, v: 0 }
    }

    pub fn new() -> (r: Smoother)
        ensures
            r == Smoother::spec_new(),
    {
        Smoother { ema: None, x: None, v: 0 }
    }

    /// Runs one smoothing step (see `spec_smooth_step`).
    pub fn step(&mut self, mid: u32, conf: u32)
        requires
            old(self).wf(),
        ensures
            *final(self) == spec_smooth_step(*old(self), mid, conf),
            final(self).wf(),
    {
        proof {
            reveal(spec_smooth_step);
        }
        let e: i64 = match self.ema {
            Some(p) => tdiv_i64(85 * p + 15 * (mid as i64), 100),
            None => mid as i64,
        };
        let (x0, v0): (i64, i64) = match self.x {
            Some(x) => (x, self.v),
            None => (e, 0),
        };
        let xp = x0 + tdiv_i64(v0, 2);
        let r = e - xp;
        let g: i64 = if conf < 7000 {
            60
        } else if conf < 8000 {
            80
        } else {
            100
        };
        assert(-2_000_000_000_000_000 <= 28 * g * r <= 2_000_000_000_000_000) by (nonlinear_arith)
            requires
                -30_000_000_000 <= r <= 30_000_000_000,
                60 <= g <= 100,
        ;
        assert(-2_000_000_000_000_000 <= 12 * g * r <= 2_000_000_000_000_000) by (nonlinear_arith)
            requires
                -30_000_000_000 <= r <= 30_000_000_000,
                60 <= g <= 100,
        ;
        let x1 = clamp_i64(xp + tdiv_i64(28 * g * r, 10000));
        let v1 = clamp_i64(v0 + tdiv_i64(12 * g * r, 10000));
        self.ema = Some(
            if conf < 8000 {
                x1
            } else {
                e
            },
        );
        self.x = Some(x1);
        self.v = v1;
    }
}

} // verus!
