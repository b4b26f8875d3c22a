//! The display controller: fuses successive raw tempo estimates into a
//! stable display value, once per analysis hop.
use vstd::prelude::*;
use crate::display::{
    level_from_db, spec_level, DisplayBpm, DisplayState, MAX_REPORTED_CONF, SILENCE_LEVEL, UNIT,
};
use crate::estimator::BpmEstimate;
use crate::harmonics::{
    abs_diff, correct_against_anchor, guard_outlier, octave_fold, spec_correct, spec_guard,
    spec_octave_fold,
};
use crate::lock::{round_bpm, round_milli, spec_lock_step, IntLock};
use crate::smoothing::{median, spec_median, spec_smooth_step, Smoother};
use crate::ring::{
    count_near, fresh, is_mode, is_recent_start, mode_from, pruned, recent_of, recent_start_of,
    ring_values, TimedRing,
};

verus! {

/// Tracking turns on after three hops at or above this confidence (0.40).
pub const HI_CONF: u32 = 4000;

/// Tracking turns off after two hops at or below this confidence (0.25).
pub const LO_CONF: u32 = 2500;

/// Thresholds for estimates from ultra-short windows (at most 100 ms).
pub const ULTRA_HI_CONF: u32 = 1500;

pub const ULTRA_LO_CONF: u32 = 800;

pub const ULTRA_SHORT_MS: u32 = 100;

/// Length of a fast-relock period.
pub const FAST_RELOCK_MS: u64 = 2000;

/// A loudness change of 6 dB between hops counts as a change of material.
pub const JUMP_DB_CENTI: i32 = 600;

/// Span of the value histories.
pub const HISTORY_MS: u64 = 1500;

/// Span of the majority gate's history.
pub const MAJORITY_GATE_MS: u64 = 1200;

/// Hops without an estimate after which tracking is dropped.
pub const NONE_LIMIT: u32 = 6;

/// Initial noise-floor estimate (0.01 RMS, in units of 1e-9).
pub const INITIAL_NOISE_FLOOR: u64 = 10_000_000;

/// Smallest noise floor the SNR is computed against (1e-6 RMS).
pub const MIN_NOISE_FLOOR: u64 = 1000;

/// Without data for this long, the display is zeroed.
pub const STALL_MS: u64 = 1500;

/// Largest integer BPM that rounding a `u32` milli-BPM value can give.
pub const MAX_ROUNDED: u32 = 4294967;

/// What the analysis of one hop hands to the controller.
#[derive(Clone, Copy, Debug, PartialEq, Eq, Structural)]
pub struct Hop {
    /// Window RMS in units of 1e-9.
    pub rms_nano: u64,
    /// Window RMS in hundredths of a dBFS.
    pub rms_db_centi: i32,
    /// The estimator's result, if any.
    pub estimate: Option<BpmEstimate>,
}

/// The controller's scalar state.
#[derive(Clone, Copy, Debug, PartialEq, Eq, Structural)]
pub struct StabState {
    pub tracking: bool,
    /// Set when tracking is first entered; cleared by silence, resets and
    /// long runs without estimates.
    pub ever_locked: bool,
    pub hi_cnt: u32,
    pub lo_cnt: u32,
    pub none_cnt: u32,
    /// Slowly updated reference tempo for harmonic correction (milli-BPM).
    pub anchor: Option<u32>,
    pub lock: IntLock,
    /// Clear the lock on the next hop.
    pub force_clear_lock: bool,
    pub fast_deadline: Option<u64>,
    pub prev_db: Option<i32>,
    /// A long run without estimates ended tracking; the next confident hop
    /// starts a fast relock.
    pub recovering: bool,
    /// Noise-floor RMS in units of 1e-9.
    pub noise_floor: u64,
    pub last_hard_int: Option<u32>,
    pub last_hard_state: Option<DisplayState>,
    /// Milliseconds without incoming data.
    pub no_data_ms: u64,
    /// Smoothed value and tracker.
    pub smooth: Smoother,
    /// The current display value.
    pub shown: Option<DisplayBpm>,
}

pub struct Stabilizer {
    pub st: StabState,
    /// Recent post-correction values (milli-BPM).
    pub stable_vals: TimedRing,
    /// Recent rounded candidates (integer BPM).
    pub ints_cand: TimedRing,
    /// Recent displayed integers (integer BPM).
    pub ints_shown: TimedRing,
}

/// The controller as a mathematical value.
pub struct StabilizerView {
    pub st: StabState,
    pub stable_vals: Seq<(u32, u64)>,
    pub ints_cand: Seq<(u32, u64)>,
    pub ints_shown: Seq<(u32, u64)>,
}

impl View for Stabilizer {
    type V = StabilizerView;

    open spec fn view(&self) -> StabilizerView {
        StabilizerView {
            st: self.st,
            stable_vals: self.stable_vals@,
            ints_cand: self.ints_cand@,
            ints_shown: self.ints_shown@,
        }
    }
}

/// The scalar state right after construction or a reset: nothing tracked,
/// and a zeroed display shown.
pub open spec fn fresh_state() -> StabState {
    StabState {
        tracking: false,
        ever_locked: false,
        hi_cnt: 0,
        lo_cnt: 0,
        none_cnt: 0,
        anchor: None,
        lock: IntLock::spec_new(),
        force_clear_lock: false,
        fast_deadline: None,
        prev_db: None,
        recovering: false,
        noise_floor: INITIAL_NOISE_FLOOR,
        last_hard_int: None,
        last_hard_state: None,
        no_data_ms: 0,
        smooth: Smoother::spec_new(),
        shown: Some(DisplayBpm::spec_zeroed(0)),
    }
}

/// The controller after a reset, whatever it held before.
pub open spec fn spec_reset(v: StabilizerView) -> StabilizerView {
    StabilizerView {
        st: fresh_state(),
        stable_vals: Seq::empty(),
        ints_cand: Seq::empty(),
        ints_shown: Seq::empty(),
    }
}

pub open spec fn sat_add(a: u64, b: u64) -> u64 {
    if a + b > u64::MAX {
        u64::MAX
    } else {
        (a + b) as u64
    }
}

pub open spec fn sat_inc32(x: u32) -> u32 {
    if x < u32::MAX {
        (x + 1) as u32
    } else {
        u32::MAX
    }
}

/// Noise floor after one hop: 0.99 of the old one plus 0.01 of the RMS.
pub open spec fn spec_noise_floor(nf: u64, rms: u64) -> int {
    (99 * nf + rms) / 100
}

/// SNR boost in basis points: (rms / noise floor) / 2.5, clamped to
/// [0.6, 1.15].
pub open spec fn spec_snr_boost(rms: u64, nf: u64) -> int {
    let floor: int = if nf < MIN_NOISE_FLOOR {
        MIN_NOISE_FLOOR as int
    } else {
        nf as int
    };
    let b = 20000 * rms / (5 * floor);
    if b < 6000 {
        6000
    } else if b > 11500 {
        11500
    } else {
        b
    }
}

/// The hop's confidence: the raw confidence (at most 1.0) scaled by the SNR
/// boost and capped at 0.95.
pub open spec fn spec_conf(raw: u32, rms: u64, nf: u64) -> int {
    let c: int = if raw > UNIT {
        UNIT as int
    } else {
        raw as int
    };
    let x = c * spec_snr_boost(rms, nf) / 10000;
    if x > MAX_REPORTED_CONF {
        MAX_REPORTED_CONF as int
    } else {
        x
    }
}

/// Entry and exit thresholds of tracking for a slice of `win_ms`.
pub open spec fn thresholds(win_ms: u32) -> (int, int) {
    if win_ms <= ULTRA_SHORT_MS {
        (ULTRA_HI_CONF as int, ULTRA_LO_CONF as int)
    } else {
        (HI_CONF as int, LO_CONF as int)
    }
}

/// Tracking hysteresis: `(tracking, ever_locked, hi_cnt, lo_cnt)` after a hop
/// with confidence `conf`.
pub open spec fn spec_hysteresis(s: StabState, conf: int, win_ms: u32) -> (bool, bool, u32, u32) {
    let (hi, lo) = thresholds(win_ms);
    let hc = if conf >= hi {
        sat_inc32(s.hi_cnt)
    } else {
        0
    };
    let lc = if conf <= lo {
        sat_inc32(s.lo_cnt)
    } else {
        0
    };
    let enter = !s.tracking && hc >= 3;
    let t1 = s.tracking || enter;
    let t2 = if t1 && lc >= 2 {
        false
    } else {
        t1
    };
    (t2, s.ever_locked || enter, hc, lc)
}

pub open spec fn state_of(tracking: bool, ever_locked: bool) -> DisplayState {
    if tracking {
        DisplayState::Tracking
    } else if ever_locked {
        DisplayState::Uncertain
    } else {
        DisplayState::Analyzing
    }
}

/// Whether the loudness moved by 6 dB or more since the previous hop.
pub open spec fn is_jump(prev: Option<i32>, db: i32) -> bool {
    match prev {
        Some(p) => abs_diff(db as int, p as int) >= JUMP_DB_CENTI,
        None => false,
    }
}

pub open spec fn in_fast(deadline: Option<u64>, now: u64) -> bool {
    match deadline {
        Some(t) => now < t,
        None => false,
    }
}

/// The raw tempo corrected against the anchor, then folded into range.
pub open spec fn spec_corrected(anchor: Option<u32>, raw: u32) -> int {
    spec_octave_fold(
        match anchor {
            Some(a) => spec_correct(raw as int, a as int).0,
            None => raw as int,
        },
    )
}

/// What a hop without an estimate shows: the previous tempo at zero
/// confidence, or zeros when nothing was shown yet.
pub open spec fn spec_none_display(shown: Option<DisplayBpm>, ever_locked: bool, level: u32) -> DisplayBpm {
    match shown {
        Some(last) => DisplayBpm {
            bpm_milli: last.bpm_milli,
            confidence: 0,
            state: if ever_locked {
                DisplayState::Uncertain
            } else {
                DisplayState::Analyzing
            },
            level,
        },
        None => DisplayBpm::spec_zeroed(level),
    }
}

/// The anchor after a hop that ended on `disp` with confidence `conf`:
/// while tracking with confidence of at least 0.85 it follows a value in
/// [60, 160] BPM, set when absent, else moved 15 % toward a value within 8 %.
pub open spec fn spec_anchor(tracking: bool, anchor: Option<u32>, disp: u32, conf: u32) -> Option<u32> {
    if tracking && conf >= 8500 && 60000 <= disp <= 160000 {
        match anchor {
            Some(a) => if abs_diff(disp as int, a as int) * 100 <= 8 * a {
                Some(((85 * a + 15 * disp) / 100) as u32)
            } else {
                anchor
            },
            None => Some(disp),
        }
    } else {
        anchor
    }
}

/// The reference of the outlier rule: the anchor, else the integer of the
/// tempo shown, if one is shown.
pub open spec fn spec_base(anchor: Option<u32>, shown: Option<DisplayBpm>) -> Option<int> {
    match anchor {
        Some(a) => Some(a as int),
        None => match shown {
            Some(p) => if p.bpm_milli > 0 {
                Some(round_bpm(p.bpm_milli as int) * 1000)
            } else {
                None
            },
            None => None,
        },
    }
}

/// The hard gate: confidence of at least 0.80 and, when there is a base, the
/// outlier rule. Gives admission and the value carried on.
pub open spec fn spec_hard_gate(disp: int, conf: int, base: Option<int>, ever_locked: bool) -> (bool, int) {
    if conf < 8000 {
        (false, disp)
    } else {
        match base {
            Some(b) => spec_guard(disp, b, ever_locked),
            None => (true, disp),
        }
    }
}

/// The integer compared against by the majority rules: that of the tempo
/// shown, else that of the current value.
pub open spec fn prev_int(shown: Option<DisplayBpm>, disp: int) -> int {
    match shown {
        Some(p) => round_bpm(p.bpm_milli as int),
        None => round_bpm(disp),
    }
}

/// `p` is a majority override: an uncertain display of a whole BPM other
/// than the one compared against.
pub open spec fn is_majority_override(p: DisplayBpm, shown: Option<DisplayBpm>, disp: int) -> bool {
    &&& p.state == DisplayState::Uncertain
    &&& p.bpm_milli % 1000 == 0
    &&& p.bpm_milli / 1000 != prev_int(shown, disp)
}

/// How many agreeing history entries the soft and majority gates need.
pub open spec fn need_of(fast: bool) -> nat {
    if fast {
        2
    } else {
        3
    }
}

/// The publish gates of a hop, given the anchor, the tempo shown, whether
/// tracking was ever entered, the last hard-gated integer and state, the
/// value history before this hop's value joins it, and the candidate history. The hard gate
/// admits a confident value that passes the outlier rule; the soft gate one
/// with enough close neighbours among the recent values; the majority gate a
/// new integer that most recent candidates agree on. An admitted hop shows the
/// value (uncertain unless hard), unless the candidates of the last 1.5 s
/// agree on another integer, which is then shown as uncertain. Gives the
/// published value, if any.
#[verifier::opaque]
pub open spec fn spec_gates(
    anchor: Option<u32>,
    shown: Option<DisplayBpm>,
    ever_locked: bool,
    last_hard_int: Option<u32>,
    last_hard_state: Option<DisplayState>,
    stable_before: Seq<(u32, u64)>,
    cand: Seq<(u32, u64)>,
    disp: u32,
    conf: u32,
    state: DisplayState,
    fast: bool,
    level: u32,
    now: u64,
) -> Option<DisplayBpm> {
    let stable = pruned(stable_before.push((disp, now)), now, HISTORY_MS);
    let (hard, dg) = spec_hard_gate(disp as int, conf as int, spec_base(anchor, shown), ever_locked);
    let soft_thr: u32 = if fast {
        5000
    } else {
        5500
    };
    let span: u64 = if fast {
        1000
    } else {
        1500
    };
    let need = need_of(fast);
    let soft = !hard && conf >= soft_thr && 60000 <= dg <= 180000 && count_near(
        recent_of(stable, now, span),
        dg as u32,
        800,
    ) >= need;
    let disp_int = round_bpm(dg);
    let pi = prev_int(shown, dg);
    let major = !hard && !soft && match mode_from(recent_of(cand, now, MAJORITY_GATE_MS), 0) {
        Some(m) => m.1 >= need && m.0 != pi && 60 <= m.0 <= 180,
        None => false,
    };
    if !(hard || soft || major) {
        None
    } else {
        let s0 = if hard {
            state
        } else {
            DisplayState::Uncertain
        };
        let s1 = if soft && last_hard_int == Some(disp_int as u32) {
            match last_hard_state {
                Some(x) => x,
                None => DisplayState::Tracking,
            }
        } else {
            s0
        };
        let show = if soft && fast && pi != disp_int {
            DisplayState::Uncertain
        } else {
            s1
        };
        let plain = DisplayBpm { bpm_milli: dg as u32, confidence: conf, state: show, level };
        let p = match mode_from(recent_of(cand, now, HISTORY_MS), 0) {
            Some(m) => if m.1 >= need && m.0 != pi {
                DisplayBpm {
                    bpm_milli: (m.0 * 1000) as u32,
                    confidence: conf,
                    state: DisplayState::Uncertain,
                    level,
                }
            } else {
                plain
            },
            None => plain,
        };
        Some(p)
    }
}

/// What a hop with estimate `e` does, from the controller `v0` to `v1`,
/// given the window's RMS and dB, its level, and the noise floor `nf` in
/// force: confidence, tracking hysteresis, fast relock on a loudness jump,
/// harmonic correction against the anchor, octave folding, the integer lock,
/// the relock triggers, the publish gates, the anchor update and the
/// smoothing of the recent values. `r` is what
/// the hop publishes. (Derived facts: a value admitted by the hard gate is
/// always published, and what is published is the value carried through the
/// outlier rule, or a majority integer.)
pub open spec fn estimate_hop_post(
    v0: StabilizerView,
    v1: StabilizerView,
    e: BpmEstimate,
    rms: u64,
    nf: u64,
    db: i32,
    level: u32,
    now: u64,
    r: Option<DisplayBpm>,
) -> bool {
    let s0 = v0.st;
    let s1 = v1.st;
    let conf = spec_conf(e.confidence, rms, nf);
    let jump = is_jump(s0.prev_db, db);
    let deadline = if jump {
        Some(sat_add(now, FAST_RELOCK_MS))
    } else {
        s0.fast_deadline
    };
    let anchor_in = if jump {
        None
    } else {
        s0.anchor
    };
    let fast = in_fast(deadline, now);
    let (lk, out) = spec_lock_step(
        s0.lock,
        spec_corrected(anchor_in, e.bpm_milli),
        conf,
        fast,
        s0.force_clear_lock,
        now,
    );
    let (t, ev, hc, lc) = spec_hysteresis(s0, conf, e.win_ms);
    let relock = (s0.recovering && conf >= 5000) || lk.dev_count >= 2;
    let anchor_mid = if relock {
        None
    } else {
        anchor_in
    };
    let stable_mid = if jump || relock {
        Seq::<(u32, u64)>::empty()
    } else {
        v0.stable_vals
    };
    let cand = pruned(v0.ints_cand.push((round_bpm(out) as u32, now)), now, HISTORY_MS);
    let force = lk.dev_count >= 2 && (mode_from(recent_of(v0.ints_shown, now, HISTORY_MS), 0) matches Some(
        m,
    ) && m.1 >= 3);
    let pr = spec_gates(
        anchor_mid,
        s0.shown,
        ev,
        s0.last_hard_int,
        s0.last_hard_state,
        stable_mid, cand, out as u32, conf as u32, state_of(t, ev), fast, level, now);
    let (hard, dg) = spec_hard_gate(out, conf, spec_base(anchor_mid, s0.shown), ev);
    &&& r == pr
    &&& s1.none_cnt == 0
    &&& s1.prev_db == Some(db)
    &&& (s1.tracking, s1.ever_locked, s1.hi_cnt, s1.lo_cnt) == (t, ev, hc, lc)
    &&& s1.fast_deadline == if relock {
        Some(sat_add(now, FAST_RELOCK_MS))
    } else {
        deadline
    }
    &&& s1.lock == if lk.dev_count >= 2 {
        IntLock { dev_count: 0, ..lk }
    } else {
        lk
    }
    &&& s1.force_clear_lock == force
    &&& s1.recovering == (s0.recovering && conf < 5000)
    &&& s1.anchor == spec_anchor(t, anchor_mid, dg as u32, conf as u32)
    &&& s1.shown == match pr {
        Some(p) => Some(p),
        None => s0.shown,
    }
    &&& s1.last_hard_int == if hard {
        Some(round_bpm(dg) as u32)
    } else {
        s0.last_hard_int
    }
    &&& s1.last_hard_state == if hard {
        Some(state_of(t, ev))
    } else {
        s0.last_hard_state
    }
    &&& s1.no_data_ms == s0.no_data_ms
    &&& s1.smooth == spec_smooth_step(s0.smooth, spec_median(ring_values(v1.stable_vals)), conf as u32)
    &&& v1.stable_vals == pruned(stable_mid.push((out as u32, now)), now, HISTORY_MS)
    &&& v1.ints_cand == cand
    &&& v1.ints_shown == match pr {
        Some(p) => pruned(v0.ints_shown.push((round_bpm(p.bpm_milli as int) as u32, now)), now, HISTORY_MS),
        None => v0.ints_shown,
    }
    &&& hard ==> r is Some
    &&& r matches Some(p) ==> {
        &&& p.confidence == conf
        &&& p.level == level
        &&& (p.bpm_milli == dg && (hard ==> p.state == state_of(t, ev))) || is_majority_override(
            p,
            s0.shown,
            dg,
        )
    }
}

fn diff_i64(a: i64, b: i64) -> (r: u64)
    requires
        -0x1_0000_0000 <= a <= 0x1_0000_0000,
        -0x1_0000_0000 <= b <= 0x1_0000_0000,
    ensures
        r as int == abs_diff(a as int, b as int),
{
    if a >= b {
        (a - b) as u64
    } else {
        (b - a) as u64
    }
}

fn add_ms(a: u64, b: u64) -> (r: u64)
    ensures
        r == sat_add(a, b),
{
    if a > u64::MAX - b {
        u64::MAX
    } else {
        a + b
    }
}

fn inc32(x: u32) -> (r: u32)
    ensures
        r == sat_inc32(x),
{
    if x < u32::MAX {
        x + 1
    } else {
        u32::MAX
    }
}

pub fn next_noise_floor(nf: u64, rms: u64) -> (r: u64)
    ensures
        r as int == spec_noise_floor(nf, rms),
{
    let x: u128 = (99 * (nf as u128) + rms as u128) / 100;
    x as u64
}

/// The hop's confidence in basis points (see `spec_conf`).
pub fn hop_confidence(raw: u32, rms: u64, nf: u64) -> (r: u32)
    ensures
        r as int == spec_conf(raw, rms, nf),
        r <= MAX_REPORTED_CONF,
{
    let floor: u128 = if nf < MIN_NOISE_FLOOR {
        MIN_NOISE_FLOOR as u128
    } else {
        nf as u128
    };
    let b0: u128 = 20000 * (rms as u128) / (5 * floor);
    let b: u64 = if b0 < 6000 {
        6000
    } else if b0 > 11500 {
        11500
    } else {
        b0 as u64
    };
    let c: u64 = if raw > UNIT {
        UNIT as u64
    } else {
        raw as u64
    };
    assert(c * b <= 10000 * 11500) by (nonlinear_arith)
        requires
            c <= 10000,
            b <= 11500,
    ;
    let x: u64 = c * b / 10000;
    if x > MAX_REPORTED_CONF as u64 {
        MAX_REPORTED_CONF
    } else {
        x as u32
    }
}

impl Stabilizer {
    /// Every value in the displayed slot and the candidate history is in range.
    pub open spec fn wf(&self) -> bool {
        &&& self.st.shown matches Some(d) ==> d.in_range()
        &&& self.st.smooth.wf()
        &&& forall|j: int|
            0 <= j < self.ints_cand@.len() ==> (#[trigger] self.ints_cand@[j]).0 <= MAX_ROUNDED
    }

    /// A controller in its reset state.
    pub fn new() -> (r: Stabilizer)
        ensures
            r@ == spec_reset(r@),
            r.wf(),
    {
        Stabilizer {
            st: StabState {
                tracking: false,
                ever_locked: false,
                hi_cnt: 0,
                lo_cnt: 0,
                none_cnt: 0,
                anchor: None,
                lock: IntLock::new(),
                force_clear_lock: false,
                fast_deadline: None,
                prev_db: None,
                recovering: false,
                noise_floor: INITIAL_NOISE_FLOOR,
                last_hard_int: None,
                last_hard_state: None,
                no_data_ms: 0,
                smooth: Smoother::new(),
                shown: Some(DisplayBpm::zeroed(0)),
            },
            stable_vals: TimedRing::new(),
            ints_cand: TimedRing::new(),
            ints_shown: TimedRing::new(),
        }
    }

    /// Clears all state and shows a zeroed display, which is returned.
    pub fn reset(&mut self) -> (r: DisplayBpm)
        ensures
            final(self)@ == spec_reset(old(self)@),
            final(self).wf(),
            r == DisplayBpm::spec_zeroed(0),
    {
        *self = Stabilizer::new();
        DisplayBpm::zeroed(0)
    }

    /// A new sample rate invalidates everything: the controller starts over
    /// and the returned zeroed display is shown at once.
    pub fn on_sample_rate_change(&mut self) -> (r: DisplayBpm)
        ensures
            final(self)@ == spec_reset(old(self)@),
            final(self).wf(),
            r == DisplayBpm::spec_zeroed(0),
            final(self).st.shown == Some(r),
    {
        self.reset()
    }

    /// Data arrived: the stall timer restarts.
    pub fn note_data(&mut self)
        ensures
            final(self)@ == (StabilizerView { st: StabState { no_data_ms: 0, ..old(self).st }, ..old(self)@ }),
            final(self).wf() == old(self).wf(),
    {
        self.st.no_data_ms = 0;
    }

    /// `elapsed_ms` passed without data. After 1.5 s in all, tracking is
    /// dropped and a zeroed display is shown and returned.
    pub fn note_no_data(&mut self, elapsed_ms: u64) -> (r: Option<DisplayBpm>)
        requires
            old(self).wf(),
        ensures
            final(self).wf(),
            sat_add(old(self).st.no_data_ms, elapsed_ms) >= STALL_MS ==> {
                &&& r == Some(DisplayBpm::spec_zeroed(0))
                &&& final(self).st == (StabState {
                    tracking: false,
                    ever_locked: false,
                    hi_cnt: 0,
                    lo_cnt: 0,
                    no_data_ms: 0,
                    shown: r,
                    ..old(self).st
                })
            },
            sat_add(old(self).st.no_data_ms, elapsed_ms) < STALL_MS ==> {
                &&& r is None
                &&& final(self).st == (StabState {
                    no_data_ms: sat_add(old(self).st.no_data_ms, elapsed_ms),
                    ..old(self).st
                })
            },
            final(self).stable_vals@ == old(self).stable_vals@,
            final(self).ints_cand@ == old(self).ints_cand@,
            final(self).ints_shown@ == old(self).ints_shown@,
    {
        self.st.no_data_ms = add_ms(self.st.no_data_ms, elapsed_ms);
        if self.st.no_data_ms >= STALL_MS {
            let z = DisplayBpm::zeroed(0);
            self.st.tracking = false;
            self.st.ever_locked = false;
            self.st.hi_cnt = 0;
            self.st.lo_cnt = 0;
            self.st.no_data_ms = 0;
            self.st.shown = Some(z);
            Some(z)
        } else {
            None
        }
    }

    /// Processes one analysis hop and returns the display value published on
    /// it, if any; a published value also becomes the shown one.
    pub fn process_hop(&mut self, hop: Hop, now: u64) -> (r: Option<DisplayBpm>)
        requires
            old(self).wf(),
        ensures
            final(self).wf(),
            r matches Some(d) ==> d.in_range() && final(self).st.shown == Some(d),
            r is None ==> final(self).st.shown == old(self).st.shown,
            final(self).st.noise_floor as int == spec_noise_floor(old(self).st.noise_floor, hop.rms_nano),
            // silence
            spec_level(hop.rms_db_centi as int) < SILENCE_LEVEL ==> {
                &&& r == Some(DisplayBpm::spec_zeroed(spec_level(hop.rms_db_centi as int) as u32))
                &&& final(self).st == (StabState {
                    tracking: false,
                    ever_locked: false,
                    hi_cnt: 0,
                    lo_cnt: 0,
                    lock: IntLock::spec_new(),
                    shown: r,
                    noise_floor: final(self).st.noise_floor,
                    ..old(self).st
                })
                &&& final(self).stable_vals@ == old(self).stable_vals@
                &&& final(self).ints_cand@ == old(self).ints_cand@
                &&& final(self).ints_shown@ == old(self).ints_shown@
            },
            // no estimate
            spec_level(hop.rms_db_centi as int) >= SILENCE_LEVEL && hop.estimate is None ==> {
                let n = sat_inc32(old(self).st.none_cnt);
                let gone = n >= NONE_LIMIT;
                &&& final(self).st.none_cnt == n
                &&& final(self).st.tracking == (old(self).st.tracking && !gone)
                &&& final(self).st.ever_locked == (old(self).st.ever_locked && !gone)
                &&& final(self).st.recovering == (old(self).st.recovering || gone)
                &&& r == Some(
                    spec_none_display(
                        old(self).st.shown,
                        final(self).st.ever_locked,
                        spec_level(hop.rms_db_centi as int) as u32,
                    ),
                )
                &&& final(self).st == (StabState {
                    none_cnt: n,
                    tracking: final(self).st.tracking,
                    ever_locked: final(self).st.ever_locked,
                    recovering: final(self).st.recovering,
                    shown: r,
                    noise_floor: final(self).st.noise_floor,
                    ..old(self).st
                })
                &&& final(self).stable_vals@ == old(self).stable_vals@
                &&& final(self).ints_cand@ == old(self).ints_cand@
                &&& final(self).ints_shown@ == old(self).ints_shown@
            },
            // an estimate
            hop.estimate matches Some(e) ==> spec_level(hop.rms_db_centi as int) >= SILENCE_LEVEL
                ==> estimate_hop_post(
                old(self)@,
                final(self)@,
                e,
                hop.rms_nano,
                final(self).st.noise_floor,
                hop.rms_db_centi,
                spec_level(hop.rms_db_centi as int) as u32,
                now,
                r,
            ),
    {
        let level = level_from_db(hop.rms_db_centi);
        let nf = next_noise_floor(self.st.noise_floor, hop.rms_nano);
        if level < SILENCE_LEVEL {
            self.st.noise_floor = nf;
            let z = DisplayBpm::zeroed(level);
            self.st.tracking = false;
            self.st.ever_locked = false;
            self.st.hi_cnt = 0;
            self.st.lo_cnt = 0;
            self.st.lock = IntLock::new();
            self.st.shown = Some(z);
            return Some(z);
        }
        match hop.estimate {
            None => {
                self.st.noise_floor = nf;
                let d = self.on_no_estimate(level);
                Some(d)
            },
            Some(e) => self.on_estimate(e, hop.rms_nano, nf, hop.rms_db_centi, level, now),
        }
    }

    fn on_no_estimate(&mut self, level: u32) -> (r: DisplayBpm)
        requires
            old(self).wf(),
            level <= UNIT,
        ensures
            final(self).wf(),
            final(self).st.shown == Some(r),
            ({
                let n = sat_inc32(old(self).st.none_cnt);
                let gone = n >= NONE_LIMIT;
                &&& final(self).st.none_cnt == n
                &&& final(self).st.tracking == (old(self).st.tracking && !gone)
                &&& final(self).st.ever_locked == (old(self).st.ever_locked && !gone)
                &&& final(self).st.recovering == (old(self).st.recovering || gone)
                &&& r == spec_none_display(old(self).st.shown, final(self).st.ever_locked, level)
                &&& final(self).st == (StabState {
                    none_cnt: n,
                    tracking: final(self).st.tracking,
                    ever_locked: final(self).st.ever_locked,
                    recovering: final(self).st.recovering,
                    shown: Some(r),
                    ..old(self).st
                })
            }),
            final(self).st.noise_floor == old(self).st.noise_floor,
            final(self).stable_vals@ == old(self).stable_vals@,
            final(self).ints_cand@ == old(self).ints_cand@,
            final(self).ints_shown@ == old(self).ints_shown@,
    {
        self.st.none_cnt = inc32(self.st.none_cnt);
        if self.st.none_cnt >= NONE_LIMIT {
            self.st.tracking = false;
            self.st.ever_locked = false;
            self.st.recovering = true;
        }
        let d = match self.st.shown {
            Some(last) => DisplayBpm {
                bpm_milli: last.bpm_milli,
                confidence: 0,
                state: if self.st.ever_locked {
                    DisplayState::Uncertain
                } else {
                    DisplayState::Analyzing
                },
                level,
            },
            None => DisplayBpm::zeroed(level),
        };
        self.st.shown = Some(d);
        d
    }

    #[verifier::rlimit(60)]
    fn on_estimate(&mut self, e: BpmEstimate, rms: u64, nf: u64, db: i32, level: u32, now: u64) -> (r:
        Option<DisplayBpm>)
        requires
            old(self).wf(),
            level <= UNIT,
        ensures
            final(self).wf(),
            r matches Some(d) ==> d.in_range() && final(self).st.shown == Some(d),
            r is None ==> final(self).st.shown == old(self).st.shown,
            final(self).st.noise_floor == nf,
            estimate_hop_post(old(self)@, final(self)@, e, rms, nf, db, level, now, r),
    {
        self.st.noise_floor = nf;
        let (conf, state, fast, disp) = self.front_half(e, rms, db, now);
        self.relock_triggers(conf, now);
        let (published, disp) = self.publish(disp, conf, state, fast, level, now);
        self.finish(disp, conf);
        published
    }

    /// The front half of a hop with an estimate: loudness-jump detection,
    /// confidence, tracking hysteresis, harmonic correction, octave folding
    /// and the integer lock. Returns the confidence, the reported state,
    /// whether fast relock is on, and the lock's display value.
    fn front_half(&mut self, e: BpmEstimate, rms: u64, db: i32, now: u64) -> (r: (u32, DisplayState, bool, u32))
        requires
            old(self).wf(),
        ensures
            final(self).wf(),
            ({
                let conf = spec_conf(e.confidence, rms, old(self).st.noise_floor);
                let jump = is_jump(old(self).st.prev_db, db);
                let deadline = if jump {
                    Some(sat_add(now, FAST_RELOCK_MS))
                } else {
                    old(self).st.fast_deadline
                };
                let anchor_in = if jump {
                    None
                } else {
                    old(self).st.anchor
                };
                let (lk, out) = spec_lock_step(
                    old(self).st.lock,
                    spec_corrected(anchor_in, e.bpm_milli),
                    conf,
                    in_fast(deadline, now),
                    old(self).st.force_clear_lock,
                    now,
                );
                let (t, ev, hc, lc) = spec_hysteresis(old(self).st, conf, e.win_ms);
                &&& final(self).st == (StabState {
                    none_cnt: 0,
                    fast_deadline: deadline,
                    anchor: anchor_in,
                    prev_db: Some(db),
                    tracking: t,
                    ever_locked: ev,
                    hi_cnt: hc,
                    lo_cnt: lc,
                    force_clear_lock: false,
                    lock: lk,
                    ..old(self).st
                })
                &&& r.0 as int == conf
                &&& r.1 == state_of(t, ev)
                &&& r.2 == in_fast(deadline, now)
                &&& r.3 as int == out
                &&& final(self).stable_vals@ == if jump {
                    Seq::<(u32, u64)>::empty()
                } else {
                    old(self).stable_vals@
                }
                &&& final(self).ints_cand@ == pruned(
                    old(self).ints_cand@.push((round_bpm(out) as u32, now)),
                    now,
                    HISTORY_MS,
                )
            }),
            final(self).ints_shown@ == old(self).ints_shown@,
    {
        self.st.none_cnt = 0;
        let jump = match self.st.prev_db {
            Some(p) => diff_i64(db as i64, p as i64) >= JUMP_DB_CENTI as u64,
            None => false,
        };
        if jump {
            self.st.fast_deadline = Some(add_ms(now, FAST_RELOCK_MS));
            self.st.anchor = None;
            self.stable_vals.clear();
        }
        self.st.prev_db = Some(db);
        let conf = hop_confidence(e.confidence, rms, self.st.noise_floor);
        let (hi, lo) = if e.win_ms <= ULTRA_SHORT_MS {
            (ULTRA_HI_CONF, ULTRA_LO_CONF)
        } else {
            (HI_CONF, LO_CONF)
        };
        self.st.hi_cnt = if conf >= hi {
            inc32(self.st.hi_cnt)
        } else {
            0
        };
        self.st.lo_cnt = if conf <= lo {
            inc32(self.st.lo_cnt)
        } else {
            0
        };
        if !self.st.tracking && self.st.hi_cnt >= 3 {
            self.st.tracking = true;
            self.st.ever_locked = true;
        }
        if self.st.tracking && self.st.lo_cnt >= 2 {
            self.st.tracking = false;
        }
        let state = if self.st.tracking {
            DisplayState::Tracking
        } else if self.st.ever_locked {
            DisplayState::Uncertain
        } else {
            DisplayState::Analyzing
        };
        let fast = match self.st.fast_deadline {
            Some(t) => now < t,
            None => false,
        };
        let corrected = match self.st.anchor {
            Some(a) => correct_against_anchor(e.bpm_milli, a).0,
            None => e.bpm_milli,
        };
        let folded = octave_fold(corrected);
        let clear = self.st.force_clear_lock;
        self.st.force_clear_lock = false;
        let disp = self.st.lock.step(folded, conf, fast, clear, now);
        let ghost c0 = self.ints_cand@;
        let rd = round_milli(disp);
        self.ints_cand.push_prune(rd, now, HISTORY_MS);
        assert forall|j: int| 0 <= j < self.ints_cand@.len() implies (
        #[trigger] self.ints_cand@[j]).0 <= MAX_ROUNDED by {
            let i = choose|i: int|
                crate::ring::is_prune_start(c0.push((rd, now)), i, now, HISTORY_MS)
                    && self.ints_cand@ == c0.push((rd, now)).subrange(
                    i,
                    c0.len() + 1int,
                );
            assert(self.ints_cand@[j] == c0.push((rd, now))[i + j]);
        }
        (conf, state, fast, disp)
    }

    /// Fast-relock triggers: recovery from a run without estimates, and
    /// repeated deviation from the lock.
    fn relock_triggers(&mut self, conf: u32, now: u64)
        requires
            old(self).wf(),
        ensures
            final(self).wf(),
            final(self).st == (StabState {
                fast_deadline: final(self).st.fast_deadline,
                anchor: final(self).st.anchor,
                recovering: final(self).st.recovering,
                force_clear_lock: final(self).st.force_clear_lock,
                lock: IntLock {
                    dev_count: if old(self).st.lock.dev_count >= 2 {
                        0
                    } else {
                        old(self).st.lock.dev_count
                    },
                    ..old(self).st.lock
                },
                ..old(self).st
            }),
            final(self).st.fast_deadline == old(self).st.fast_deadline || final(self).st.fast_deadline
                == Some(sat_add(now, FAST_RELOCK_MS)),
            final(self).st.anchor == if (old(self).st.recovering && conf >= 5000)
                || old(self).st.lock.dev_count >= 2 {
                None
            } else {
                old(self).st.anchor
            },
            final(self).st.recovering == (old(self).st.recovering && conf < 5000),
            final(self).st.fast_deadline == if (old(self).st.recovering && conf >= 5000)
                || old(self).st.lock.dev_count >= 2 {
                Some(sat_add(now, FAST_RELOCK_MS))
            } else {
                old(self).st.fast_deadline
            },
            final(self).st.force_clear_lock == if old(self).st.lock.dev_count >= 2 && (mode_from(
                recent_of(old(self).ints_shown@, now, HISTORY_MS),
                0,
            ) matches Some(m) && m.1 >= 3) {
                true
            } else {
                old(self).st.force_clear_lock
            },
            final(self).stable_vals@ == if (old(self).st.recovering && conf >= 5000)
                || old(self).st.lock.dev_count >= 2 {
                Seq::<(u32, u64)>::empty()
            } else {
                old(self).stable_vals@
            },
            final(self).ints_cand@ == old(self).ints_cand@,
            final(self).ints_shown@ == old(self).ints_shown@,
    {
        if self.st.recovering && conf >= 5000 {
            self.st.fast_deadline = Some(add_ms(now, FAST_RELOCK_MS));
            self.st.anchor = None;
            self.st.recovering = false;
            self.stable_vals.clear();
        }
        if self.st.lock.dev_count >= 2 {
            self.st.fast_deadline = Some(add_ms(now, FAST_RELOCK_MS));
            self.st.anchor = None;
            self.st.lock.dev_count = 0;
            self.stable_vals.clear();
            if let Some((_, c)) = self.ints_shown.recent_mode(now, HISTORY_MS) {
                if c >= 3 {
                    self.st.force_clear_lock = true;
                }
            }
        }
    }

    /// The publish gates (hard, soft and majority) and the majority override.
    /// Returns the published value, if any, and the value after the outlier
    /// rule.
    fn publish(&mut self, disp: u32, conf: u32, state: DisplayState, fast: bool, level: u32, now: u64) -> (r: (
        Option<DisplayBpm>,
        u32,
    ))
        requires
            old(self).wf(),
            conf <= MAX_REPORTED_CONF,
            level <= UNIT,
        ensures
            final(self).wf(),
            final(self).st == (StabState {
                shown: final(self).st.shown,
                last_hard_int: final(self).st.last_hard_int,
                last_hard_state: final(self).st.last_hard_state,
                ..old(self).st
            }),
            r.0 matches Some(d) ==> d.in_range() && final(self).st.shown == Some(d) && d.confidence
                == conf && d.level == level,
            r.0 is None ==> final(self).st.shown == old(self).st.shown,
            ({
                let pr = spec_gates(
                    old(self).st.anchor,
                    old(self).st.shown,
                    old(self).st.ever_locked,
                    old(self).st.last_hard_int,
                    old(self).st.last_hard_state,
                    old(self).stable_vals@,
                    old(self).ints_cand@,
                    disp,
                    conf,
                    state,
                    fast,
                    level,
                    now,
                );
                let (hard, dg) = spec_hard_gate(
                    disp as int,
                    conf as int,
                    spec_base(old(self).st.anchor, old(self).st.shown),
                    old(self).st.ever_locked,
                );
                &&& r.0 == pr
                &&& final(self).stable_vals@ == pruned(
                    old(self).stable_vals@.push((disp, now)),
                    now,
                    HISTORY_MS,
                )
                &&& final(self).stable_vals@.len() >= 1
                &&& final(self).ints_cand@ == old(self).ints_cand@
                &&& final(self).ints_shown@ == match pr {
                    Some(p) => pruned(
                        old(self).ints_shown@.push((round_bpm(p.bpm_milli as int) as u32, now)),
                        now,
                        HISTORY_MS,
                    ),
                    None => old(self).ints_shown@,
                }
                &&& final(self).st.last_hard_int == if hard {
                    Some(round_bpm(dg) as u32)
                } else {
                    old(self).st.last_hard_int
                }
                &&& final(self).st.last_hard_state == if hard {
                    Some(state)
                } else {
                    old(self).st.last_hard_state
                }
            }),
            ({
                let (hard, dg) = spec_hard_gate(
                    disp as int,
                    conf as int,
                    spec_base(old(self).st.anchor, old(self).st.shown),
                    old(self).st.ever_locked,
                );
                &&& r.1 as int == dg
                &&& hard ==> r.0 is Some
                &&& r.0 matches Some(p) ==> (p.bpm_milli == dg && (hard ==> p.state == state))
                    || is_majority_override(p, old(self).st.shown, dg)
            }),
    {
        proof {
            reveal(spec_gates);
        }
        self.stable_vals.push_prune(disp, now, HISTORY_MS);
        let mut disp = disp;
        let prev_shown = self.st.shown;
        let need: usize = if fast {
            2
        } else {
            3
        };
        let base: Option<u32> = match self.st.anchor {
            Some(a) => Some(a),
            None => match prev_shown {
                Some(p) => if p.bpm_milli > 0 {
                    Some(round_milli(p.bpm_milli) * 1000)
                } else {
                    None
                },
                None => None,
            },
        };
        let mut allow_hard = conf >= 8000;
        if allow_hard {
            if let Some(b) = base {
                let (ok, d) = guard_outlier(disp, b, self.st.ever_locked);
                allow_hard = ok;
                disp = d;
            }
        }
        let soft_thr: u32 = if fast {
            5000
        } else {
            5500
        };
        let span: u64 = if fast {
            1000
        } else {
            1500
        };
        let allow_soft = !allow_hard && conf >= soft_thr && 60000 <= disp && disp <= 180000
            && self.stable_vals.count_recent_near(now, span, disp, 800) >= need;
        let disp_int = round_milli(disp);
        let prev_int = match prev_shown {
            Some(p) => round_milli(p.bpm_milli),
            None => disp_int,
        };
        let allow_major = if !allow_hard && !allow_soft {
            match self.ints_cand.recent_mode(now, MAJORITY_GATE_MS) {
                Some((k, c)) => c >= need && k != prev_int && 60 <= k && k <= 180,
                None => false,
            }
        } else {
            false
        };
        if !(allow_hard || allow_soft || allow_major) {
            return (None, disp);
        }
        let mut show_state = if allow_hard {
            state
        } else {
            DisplayState::Uncertain
        };
        if allow_soft {
            if self.st.last_hard_int == Some(disp_int) {
                show_state = match self.st.last_hard_state {
                    Some(s) => s,
                    None => DisplayState::Tracking,
                };
            }
            if fast && prev_int != disp_int {
                show_state = DisplayState::Uncertain;
            }
        }
        let payload = match self.ints_cand.recent_mode(now, HISTORY_MS) {
            Some((k, c)) => if c >= need && k != prev_int {
                proof {
                    self.lemma_mode_rounded(now, HISTORY_MS, k, c);
                }
                DisplayBpm { bpm_milli: k * 1000, confidence: conf, state: DisplayState::Uncertain, level }
            } else {
                DisplayBpm { bpm_milli: disp, confidence: conf, state: show_state, level }
            },
            None => DisplayBpm { bpm_milli: disp, confidence: conf, state: show_state, level },
        };
        self.st.shown = Some(payload);
        if allow_hard {
            self.st.last_hard_int = Some(disp_int);
            self.st.last_hard_state = Some(state);
        }
        self.ints_shown.push_prune(round_milli(payload.bpm_milli), now, HISTORY_MS);
        (Some(payload), disp)
    }

    /// A mode of the candidate history is a rounded value.
    proof fn lemma_mode_rounded(&self, now: u64, span: u64, k: u32, c: usize)
        requires
            self.wf(),
            is_recent_start(self.ints_cand@, recent_start_of(self.ints_cand@, now, span), now, span),
            is_mode(recent_of(self.ints_cand@, now, span), k, c as nat),
        ensures
            k <= MAX_ROUNDED,
    {
        let i = recent_start_of(self.ints_cand@, now, span);
        let suf = recent_of(self.ints_cand@, now, span);
        let j = choose|j: int| 0 <= j < suf.len() && suf[j].0 == k;
        assert(suf[j] == self.ints_cand@[i + j]);
    }

    /// The end of a hop: the anchor follows the value carried on (see
    /// `spec_anchor`), and the median of the recent values feeds the smoother.
    fn finish(&mut self, disp: u32, conf: u32)
        requires
            old(self).wf(),
            old(self).stable_vals@.len() >= 1,
        ensures
            final(self).wf(),
            final(self).st == (StabState {
                anchor: spec_anchor(old(self).st.tracking, old(self).st.anchor, disp, conf),
                smooth: spec_smooth_step(
                    old(self).st.smooth,
                    spec_median(ring_values(old(self).stable_vals@)),
                    conf,
                ),
                ..old(self).st
            }),
            final(self).stable_vals@ == old(self).stable_vals@,
            final(self).ints_cand@ == old(self).ints_cand@,
            final(self).ints_shown@ == old(self).ints_shown@,
    {
        if self.st.tracking && conf >= 8500 && 60000 <= disp && disp <= 160000 {
            match self.st.anchor {
                Some(a) => {
                    if diff_i64(disp as i64, a as i64) * 100 <= 8 * (a as u64) {
                        self.st.anchor = Some(((85 * (a as u64) + 15 * (disp as u64)) / 100) as u32);
                    }
                },
                None => {
                    self.st.anchor = Some(disp);
                },
            }
        }
        let vals = self.stable_vals.values();
        let mid = median(&vals);
        self.st.smooth.step(mid, conf);
    }
}

/// Resetting twice leaves the controller as resetting once does.
pub proof fn lemma_reset_idempotent(v: StabilizerView)
    ensures
        spec_reset(spec_reset(v)) == spec_reset(v),
{
}

/// The scalar state with the hysteresis of one hop applied.
pub open spec fn after_hysteresis(s: StabState, conf: int, win_ms: u32) -> StabState {
    let (t, ev, hc, lc) = spec_hysteresis(s, conf, win_ms);
    StabState { tracking: t, ever_locked: ev, hi_cnt: hc, lo_cnt: lc, ..s }
}

/// Three consecutive hops at or above the entry threshold always leave the
/// controller tracking, whatever it held before.
pub proof fn lemma_three_confident_hops_track(s: StabState, c1: int, c2: int, c3: int, win_ms: u32)
    requires
        c1 >= thresholds(win_ms).0,
        c2 >= thresholds(win_ms).0,
        c3 >= thresholds(win_ms).0,
    ensures
        after_hysteresis(after_hysteresis(after_hysteresis(s, c1, win_ms), c2, win_ms), c3, win_ms).tracking,
{
}

/// A hop below the entry threshold never starts tracking.
pub proof fn lemma_low_confidence_never_tracks(s: StabState, conf: int, win_ms: u32)
    requires
        !s.tracking,
        conf < thresholds(win_ms).0,
    ensures
        !spec_hysteresis(s, conf, win_ms).0,
        spec_hysteresis(s, conf, win_ms).1 == s.ever_locked,
{
}

} // verus!
