//! Octave and 2:3 harmonic handling of tempo values (all in milli-BPM).
use vstd::prelude::*;

verus! {

/// Lower end of the display range (91 BPM).
pub const FOLD_LO: u32 = 91000;

/// Upper end of the display range (180 BPM).
pub const FOLD_HI: u32 = 180000;

/// Lowest tempo a harmonic candidate may take (60 BPM).
pub const CAND_LO: u32 = 60000;

/// Highest tempo a harmonic candidate may take (200 BPM).
pub const CAND_HI: u32 = 200000;

/// A candidate must beat the current best by this much (0.2 BPM) to replace it.
pub const CORR_HYSTERESIS: u32 = 200;

pub open spec fn abs_diff(a: int, b: int) -> int {
    if a >= b { a - b } else { b - a }
}

pub open spec fn in_display_range(b: int) -> bool {
    FOLD_LO <= b <= FOLD_HI
}

pub open spec fn in_candidate_range(b: int) -> bool {
    CAND_LO <= b <= CAND_HI
}

/// Up to `k` steps of doubling below the range and halving above it.
pub open spec fn fold_steps(t: int, k: nat) -> int
    decreases k,
{
    if k == 0 || in_display_range(t) {
        t
    } else if t < FOLD_LO {
        fold_steps(t * 2, (k - 1) as nat)
    } else {
        fold_steps(t / 2, (k - 1) as nat)
    }
}

/// The tempo moved into [91, 180] BPM by at most four octave steps, or left as
/// it is when four steps do not reach the range.
pub open spec fn spec_octave_fold(b: int) -> int {
    if in_display_range(fold_steps(b, 4)) {
        fold_steps(b, 4)
    } else {
        b
    }
}

pub fn octave_fold(bpm: u32) -> (r: u32)
    ensures
        r as int == spec_octave_fold(bpm as int),
{
    let mut t: u32 = bpm;
    let mut k: u32 = 0;
    while k < 4 && !(FOLD_LO <= t && t <= FOLD_HI)
        invariant
            k <= 4,
            fold_steps(bpm as int, 4) == fold_steps(t as int, (4 - k) as nat),
        decreases 4 - k,
    {
        if t < FOLD_LO {
            t = t * 2;
        } else {
            t = t / 2;
        }
        k = k + 1;
    }
    if FOLD_LO <= t && t <= FOLD_HI {
        t
    } else {
        bpm
    }
}

/// Folding an input at or below 90 BPM doubles it; folding one from 182 BPM up
/// to 200 BPM halves it. (Inputs strictly between 90 and 91 BPM, and from 180
/// up to 182 BPM, alternate around the range and are left unfolded.)
pub proof fn lemma_fold_outside_range(b: int)
    requires
        CAND_LO <= b <= 90000 || 182000 <= b <= CAND_HI,
    ensures
        b <= 90000 ==> spec_octave_fold(b) == 2 * b,
        b >= 182000 ==> spec_octave_fold(b) == b / 2,
        in_display_range(spec_octave_fold(b)),
{
    reveal_with_fuel(fold_steps, 5);
}

/// Which harmonic relation turned a raw tempo into the corrected one.
#[derive(Clone, Copy, Debug, PartialEq, Eq, Structural)]
pub enum Harmonic {
    Raw,
    Half,
    Double,
    TwoThirds,
    ThreeHalves,
}

/// Short tag of a harmonic relation, used in diagnostics.
pub open spec fn spec_tag(h: Harmonic) -> Seq<char> {
    match h {
        Harmonic::Raw => "raw"@,
        Harmonic::Half => "half"@,
        Harmonic::Double => "dbl"@,
        Harmonic::TwoThirds => "two_thirds"@,
        Harmonic::ThreeHalves => "three_halves"@,
    }
}

impl Harmonic {
    pub fn tag(&self) -> (r: &'static str)
        ensures
            r@ == spec_tag(*self),
    {
        match self {
            Harmonic::Raw => "raw",
            Harmonic::Half => "half",
            Harmonic::Double => "dbl",
            Harmonic::TwoThirds => "two_thirds",
            Harmonic::ThreeHalves => "three_halves",
        }
    }
}

/// The tempo `raw` scaled by the harmonic relation `h`.
pub open spec fn scaled(raw: int, h: Harmonic) -> int {
    match h {
        Harmonic::Raw => raw,
        Harmonic::Half => raw / 2,
        Harmonic::Double => raw * 2,
        Harmonic::TwoThirds => raw * 2 / 3,
        Harmonic::ThreeHalves => raw * 3 / 2,
    }
}

fn scale(raw: u32, h: Harmonic) -> (r: u64)
    ensures
        r as int == scaled(raw as int, h),
{
    let x: u64 = raw as u64;
    match h {
        Harmonic::Raw => x,
        Harmonic::Half => x / 2,
        Harmonic::Double => x * 2,
        Harmonic::TwoThirds => x * 2 / 3,
        Harmonic::ThreeHalves => x * 3 / 2,
    }
}

/// One step of the anchor comparison: candidate `h` replaces the current best
/// when it lies in [60, 200] BPM and is closer to the anchor by more than the
/// hysteresis.
pub open spec fn anchor_step(raw: int, anchor: int, best: (int, Harmonic), h: Harmonic) -> (
    int,
    Harmonic,
) {
    let c = scaled(raw, h);
    if in_candidate_range(c) && abs_diff(c, anchor) + CORR_HYSTERESIS < abs_diff(best.0, anchor) {
        (c, h)
    } else {
        best
    }
}

/// The raw tempo corrected against the anchor: the candidates half, double,
/// two thirds and three halves are tried in that order.
pub open spec fn spec_correct(raw: int, anchor: int) -> (int, Harmonic) {
    let b0 = (raw, Harmonic::Raw);
    let b1 = anchor_step(raw, anchor, b0, Harmonic::Half);
    let b2 = anchor_step(raw, anchor, b1, Harmonic::Double);
    let b3 = anchor_step(raw, anchor, b2, Harmonic::TwoThirds);
    anchor_step(raw, anchor, b3, Harmonic::ThreeHalves)
}

fn diff_u64(a: u64, b: u64) -> (r: u64)
    ensures
        r as int == abs_diff(a as int, b as int),
{
    if a >= b {
        a - b
    } else {
        b - a
    }
}

fn anchor_try(raw: u32, anchor: u32, best: (u32, Harmonic), h: Harmonic) -> (r: (u32, Harmonic))
    ensures
        (r.0 as int, r.1) == anchor_step(raw as int, anchor as int, (best.0 as int, best.1), h),
{
    let c = scale(raw, h);
    if CAND_LO as u64 <= c && c <= CAND_HI as u64 && diff_u64(c, anchor as u64) + (
    CORR_HYSTERESIS as u64) < diff_u64(best.0 as u64, anchor as u64) {
        (c as u32, h)
    } else {
        best
    }
}

/// Corrects a raw tempo toward the anchor, returning the corrected tempo and
/// the relation used.
pub fn correct_against_anchor(raw: u32, anchor: u32) -> (r: (u32, Harmonic))
    ensures
        (r.0 as int, r.1) == spec_correct(raw as int, anchor as int),
{
    let b0 = (raw, Harmonic::Raw);
    let b1 = anchor_try(raw, anchor, b0, Harmonic::Half);
    let b2 = anchor_try(raw, anchor, b1, Harmonic::Double);
    let b3 = anchor_try(raw, anchor, b2, Harmonic::TwoThirds);
    anchor_try(raw, anchor, b3, Harmonic::ThreeHalves)
}

/// One step of the outlier fallback: a candidate in [60, 200] BPM replaces the
/// current best when strictly closer to the base.
pub open spec fn closer_step(disp: int, base: int, best: int, h: Harmonic) -> int {
    let c = scaled(disp, h);
    if in_candidate_range(c) && abs_diff(c, base) < abs_diff(best, base) {
        c
    } else {
        best
    }
}

pub open spec fn closest_harmonic(disp: int, base: int) -> int {
    let b1 = closer_step(disp, base, disp, Harmonic::Half);
    let b2 = closer_step(disp, base, b1, Harmonic::Double);
    let b3 = closer_step(disp, base, b2, Harmonic::TwoThirds);
    closer_step(disp, base, b3, Harmonic::ThreeHalves)
}

/// The outlier rule of the hard gate against a base tempo: whether the value
/// is admitted, and the value carried on. When `check_rel` holds and `disp`
/// is more than 12 % off the base, the harmonic candidate closest to the base
/// replaces it if within 8 %, else the value is an outlier. An admitted value
/// outside [91, 180] BPM is then suppressed too.
pub open spec fn spec_guard(disp: int, base: int, check_rel: bool) -> (bool, int) {
    let (ok, d) = if check_rel && abs_diff(disp, base) * 100 > 12 * base {
        let b = closest_harmonic(disp, base);
        if abs_diff(b, base) * 100 <= 8 * base {
            (true, b)
        } else {
            (false, disp)
        }
    } else {
        (true, disp)
    };
    (ok && in_display_range(d), d)
}

fn closer_try(disp: u32, base: u32, best: u32, h: Harmonic) -> (r: u32)
    ensures
        r as int == closer_step(disp as int, base as int, best as int, h),
{
    let c = scale(disp, h);
    if CAND_LO as u64 <= c && c <= CAND_HI as u64 && diff_u64(c, base as u64) < diff_u64(
        best as u64,
        base as u64,
    ) {
        c as u32
    } else {
        best
    }
}

/// Applies the hard gate's outlier rule (see `spec_guard`).
pub fn guard_outlier(disp: u32, base: u32, check_rel: bool) -> (r: (bool, u32))
    ensures
        (r.0, r.1 as int) == spec_guard(disp as int, base as int, check_rel),
{
    let (ok, d): (bool, u32) = if check_rel && diff_u64(disp as u64, base as u64) * 100 > 12 * (
    base as u64) {
        let b1 = closer_try(disp, base, disp, Harmonic::Half);
        let b2 = closer_try(disp, base, b1, Harmonic::Double);
        let b3 = closer_try(disp, base, b2, Harmonic::TwoThirds);
        let b = closer_try(disp, base, b3, Harmonic::ThreeHalves);
        if diff_u64(b as u64, base as u64) * 100 <= 8 * (base as u64) {
            (true, b)
        } else {
            (false, disp)
        }
    } else {
        (true, disp)
    };
    (ok && FOLD_LO <= d && d <= FOLD_HI, d)
}

/// With the anchor at `a`, a raw estimate at half of it is corrected back to
/// `a` by doubling.
pub proof fn lemma_anchor_corrects_half_time(a: int)
    requires
        CAND_LO <= a <= CAND_HI,
        a % 2 == 0,
    ensures
        spec_correct(a / 2, a) == (a, Harmonic::Double),
{
}

} // verus!
