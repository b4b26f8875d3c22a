//! Gain control of the loudness normalizer on the analysis branch. The gain
//! is kept in centi-dB; applying it to samples is left to the caller.
use vstd::prelude::*;

verus! {

/// Target loudness: -18 dBFS.
pub const TARGET_DB_CENTI: i32 = -1800;

/// Gain ceiling when the rhythm band carries enough of the signal (+42 dB).
pub const MAX_GAIN_CENTI: i32 = 4200;

/// Gain ceiling when it does not (+18 dB).
pub const MAX_GAIN_WEAK_RHYTHM_CENTI: i32 = 1800;

/// Gain floor (-12 dB).
pub const MIN_GAIN_CENTI: i32 = -1200;

/// Rhythm-band share of the RMS (0.25) from which the higher ceiling applies.
pub const RHYTHM_RATIO_THR: u32 = 2500;

/// Smoothing weight when the gain rises (0.25).
pub const ATTACK: i64 = 2500;

/// Smoothing weight when the gain falls (0.08).
pub const RELEASE: i64 = 800;

/// The gain that would bring a window at `cur_db` to the target, clamped to
/// the floor and to the ceiling that the rhythm ratio (basis points) selects.
pub open spec fn spec_desired_gain(cur_db: int, ratio: int) -> int {
    let ceiling: int = if ratio >= RHYTHM_RATIO_THR {
        MAX_GAIN_CENTI as int
    } else {
        MAX_GAIN_WEAK_RHYTHM_CENTI as int
    };
    let need = TARGET_DB_CENTI - cur_db;
    if need > ceiling {
        ceiling
    } else if need < MIN_GAIN_CENTI {
        MIN_GAIN_CENTI as int
    } else {
        need
    }
}

/// Division rounding toward zero.
pub open spec fn trunc_div(n: int, d: int) -> int {
    if n >= 0 {
        n / d
    } else {
        -((-n) / d)
    }
}

/// One smoothing step from gain `g` toward `need`: weight 0.25 when rising,
/// 0.08 when falling.
pub open spec fn spec_smooth(g: int, need: int) -> int {
    let a: int = if need > g {
        ATTACK as int
    } else {
        RELEASE as int
    };
    trunc_div(g * (10000 - a) + need * a, 10000)
}

pub struct GainControl {
    /// The smoothed gain in centi-dB.
    pub gain_centi: i32,
}

impl GainControl {
    pub open spec fn wf(&self) -> bool {
        MIN_GAIN_CENTI <= self.gain_centi <= MAX_GAIN_CENTI
    }

    pub fn new() -> (r: GainControl)
        ensures
            r.gain_centi == 0,
            r.wf(),
    {
        GainControl { gain_centi: 0 }
    }

    /// Moves the gain one step toward the desired gain for a window at
    /// `cur_db_centi` with rhythm ratio `ratio_bp`; returns the new gain.
    pub fn update(&mut self, cur_db_centi: i32, ratio_bp: u32) -> (r: i32)
        requires
            old(self).wf(),
        ensures
            final(self).wf(),
            r == final(self).gain_centi,
            r as int == spec_smooth(
                old(self).gain_centi as int,
                spec_desired_gain(cur_db_centi as int, ratio_bp as int),
            ),
    {
        let ceiling: i64 = if ratio_bp >= RHYTHM_RATIO_THR {
            MAX_GAIN_CENTI as i64
        } else {
            MAX_GAIN_WEAK_RHYTHM_CENTI as i64
        };
        let mut need: i64 = TARGET_DB_CENTI as i64 - cur_db_centi as i64;
        if need > ceiling {
            need = ceiling;
        } else if need < MIN_GAIN_CENTI as i64 {
            need = MIN_GAIN_CENTI as i64;
        }
        let g: i64 = self.gain_centi as i64;
        let a: i64 = if need > g {
            ATTACK
        } else {
            RELEASE
        };
        assert(-1200 * 10000 <= g * (10000 - a) + need * a <= 4200 * 10000 && -12000000 <= g * (
        10000 - a) <= 42000000 && -12000000 <= need * a <= 42000000) by (nonlinear_arith)
            requires
                -1200 <= g <= 4200,
                -1200 <= need <= 4200,
                0 <= a <= 10000,
        ;
        let n: i64 = g * (10000 - a) + need * a;
        let q: i64 = if n >= 0 {
            n / 10000
        } else {
            -((-n) / 10000)
        };
        self.gain_centi = q as i32;
        q as i32
    }

    /// Silence resets the gain to 0 dB.
    pub fn on_silence(&mut self)
        ensures
            final(self).gain_centi == 0,
            final(self).wf(),
    {
        self.gain_centi = 0;
    }
}

} // verus!
