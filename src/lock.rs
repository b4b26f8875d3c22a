//! Integer lock of the displayed tempo: once an integer BPM has been seen
//! confidently on consecutive hops, the display snaps to it and holds it
//! against small deviations.
use vstd::prelude::*;
use crate::harmonics::abs_diff;

verus! {

/// A lock is forgotten when nothing confident has been shown for this long.
pub const LOCK_EXPIRY_MS: u64 = 10000;

#[derive(Clone, Copy, Debug, PartialEq, Eq, Structural)]
pub struct IntLock {
    /// The locked integer BPM.
    pub locked: Option<u32>,
    pub lock_count: u8,
    pub unlock_count: u8,
    /// A competing adjacent integer and how often it was seen in a row.
    pub alt: Option<u32>,
    pub alt_count: u8,
    /// Time of the last hop with confidence of at least 0.80.
    pub last_show_ms: Option<u64>,
    /// Consecutive hops that sat 8 BPM or more away from the lock.
    pub dev_count: u8,
}

pub open spec fn sat_inc(x: u8) -> u8 {
    if x < 255 {
        (x + 1) as u8
    } else {
        255
    }
}

fn inc(x: u8) -> (r: u8)
    ensures
        r == sat_inc(x),
{
    if x < 255 {
        x + 1
    } else {
        255
    }
}

/// The nearest integer BPM to a milli-BPM value (halves round up).
pub open spec fn round_bpm(disp: int) -> int {
    (disp + 500) / 1000
}

pub fn round_milli(disp: u32) -> (r: u32)
    ensures
        r as int == round_bpm(disp as int),
{
    ((disp as u64 + 500) / 1000) as u32
}

/// Distance in milli-BPM from `disp` to its nearest integer.
pub open spec fn frac_dist(disp: int) -> int {
    abs_diff(disp, round_bpm(disp) * 1000)
}

pub open spec fn released(s: IntLock) -> IntLock {
    IntLock { locked: None, lock_count: 0, unlock_count: 0, ..s }
}

/// The lock as it stands before this hop's evidence: expired after 10 s
/// without a confident hop, cleared entirely in fast relock or on request,
/// and released by a confident value 2 BPM or more away.
pub open spec fn lock_prelude(s: IntLock, disp: int, conf: int, in_fast: bool, clear: bool, now: u64) -> IntLock {
    let s1 = match s.last_show_ms {
        Some(l) => if now > l && now - l > LOCK_EXPIRY_MS {
            released(s)
        } else {
            s
        },
        None => s,
    };
    let s2 = if in_fast || clear {
        IntLock { alt: None, alt_count: 0, ..released(s1) }
    } else {
        s1
    };
    match s2.locked {
        Some(n) => if conf >= 8500 && abs_diff(disp, n * 1000) >= 2000 {
            released(s2)
        } else {
            s2
        },
        None => s2,
    }
}

/// One hop of the integer lock on the value `disp` (milli-BPM) with
/// confidence `conf` (basis points): the new lock state and the displayed
/// value, snapped to the integer when locked.
#[verifier::opaque]
pub open spec fn spec_lock_step(s: IntLock, disp: int, conf: int, in_fast: bool, clear: bool, now: u64) -> (
    IntLock,
    int,
) {
    let p = lock_prelude(s, disp, conf, in_fast, clear, now);
    let n = round_bpm(disp);
    let d = frac_dist(disp);
    let (q, out) = if conf >= 8000 && d <= 600 {
        let c = if p.locked == Some(n as u32) {
            IntLock { lock_count: sat_inc(p.lock_count), ..p }
        } else {
            IntLock { locked: Some(n as u32), lock_count: 1, ..p }
        };
        let c2 = if conf >= 9000 && d <= 400 && c.lock_count < 2 {
            IntLock { lock_count: 2, ..c }
        } else {
            c
        };
        if c2.lock_count >= 2 {
            (IntLock { unlock_count: 0, ..c2 }, n * 1000)
        } else {
            (c2, disp)
        }
    } else {
        match p.locked {
            Some(n0) => {
                let u = if conf >= 8200 && abs_diff(disp, n0 * 1000) > 1300 {
                    let u0 = IntLock { unlock_count: sat_inc(p.unlock_count), ..p };
                    if u0.unlock_count >= 3 {
                        released(u0)
                    } else {
                        u0
                    }
                } else {
                    IntLock { unlock_count: 0, ..p }
                };
                let switch_conf: int = if in_fast { 7000 } else { 8200 };
                let switch_need: u8 = if in_fast { 2 } else { 3 };
                let (w, out) = if conf >= switch_conf && d <= 400 && n != n0 {
                    let a = if u.alt == Some(n as u32) {
                        IntLock { alt_count: sat_inc(u.alt_count), ..u }
                    } else {
                        IntLock { alt: Some(n as u32), alt_count: 1, ..u }
                    };
                    if a.alt_count >= switch_need {
                        (IntLock { locked: Some(n as u32), lock_count: 2, unlock_count: 0, ..a }, n * 1000)
                    } else {
                        (a, disp)
                    }
                } else {
                    (IntLock { alt_count: 0, ..u }, disp)
                };
                let dv = if abs_diff(out, n0 * 1000) >= 8000 {
                    sat_inc(w.dev_count)
                } else {
                    0
                };
                (IntLock { dev_count: dv, ..w }, out)
            },
            None => (p, disp),
        }
    };
    (if conf >= 8000 {
        IntLock { last_show_ms: Some(now), ..q }
    } else {
        q
    }, out)
}

fn diff_u64(a: u64, b: u64) -> (r: u64)
    ensures
        r as int == abs_diff(a as int, b as int),
{
    if a >= b {
        a - b
    } else {
        b - a
    }
}

impl IntLock {
    pub fn new() -> (r: IntLock)
        ensures
            r == IntLock::spec_new(),
    {
        IntLock {
            locked: None,
            lock_count: 0,
            unlock_count: 0,
            alt: None,
            alt_count: 0,
            last_show_ms: None,
            dev_count: 0,
        }
    }

    pub open spec fn spec_new() -> IntLock {
        IntLock {
            locked: None,
            lock_count: 0,
            unlock_count: 0,
            alt: None,
            alt_count: 0,
            last_show_ms: None,
            dev_count: 0,
        }
    }

    fn release(&mut self)
        ensures
            *final(self) == released(*old(self)),
    {
        self.locked = None;
        self.lock_count = 0;
        self.unlock_count = 0;
    }

    /// Runs one hop of the lock and returns the value to display.
    pub fn step(&mut self, disp: u32, conf: u32, in_fast: bool, clear: bool, now: u64) -> (r: u32)
        ensures
            (*final(self), r as int) == spec_lock_step(*old(self), disp as int, conf as int, in_fast, clear, now),
    {
        proof {
            reveal(spec_lock_step);
        }
        if let Some(l) = self.last_show_ms {
            if now > l && now - l > LOCK_EXPIRY_MS {
                self.release();
            }
        }
        if in_fast || clear {
            self.release();
            self.alt = None;
            self.alt_count = 0;
        }
        if let Some(n) = self.locked {
            if conf >= 8500 && diff_u64(disp as u64, n as u64 * 1000) >= 2000 {
                self.release();
            }
        }
        let n = round_milli(disp);
        let d = diff_u64(disp as u64, n as u64 * 1000);
        let mut out: u32 = disp;
        if conf >= 8000 && d <= 600 {
            if self.locked == Some(n) {
                self.lock_count = inc(self.lock_count);
            } else {
                self.locked = Some(n);
                self.lock_count = 1;
            }
            if conf >= 9000 && d <= 400 && self.lock_count < 2 {
                self.lock_count = 2;
            }
            if self.lock_count >= 2 {
                self.unlock_count = 0;
                out = n * 1000;
            }
        } else if let Some(n0) = self.locked {
            if conf >= 8200 && diff_u64(disp as u64, n0 as u64 * 1000) > 1300 {
                self.unlock_count = inc(self.unlock_count);
                if self.unlock_count >= 3 {
                    self.release();
                }
            } else {
                self.unlock_count = 0;
            }
            let switch_conf: u32 = if in_fast { 7000 } else { 8200 };
            let switch_need: u8 = if in_fast { 2 } else { 3 };
            if conf >= switch_conf && d <= 400 && n != n0 {
                if self.alt == Some(n) {
                    self.alt_count = inc(self.alt_count);
                } else {
                    self.alt = Some(n);
                    self.alt_count = 1;
                }
                if self.alt_count >= switch_need {
                    self.locked = Some(n);
                    self.lock_count = 2;
                    self.unlock_count = 0;
                    out = n * 1000;
                }
            } else {
                self.alt_count = 0;
            }
            if diff_u64(out as u64, n0 as u64 * 1000) >= 8000 {
                self.dev_count = inc(self.dev_count);
            } else {
                self.dev_count = 0;
            }
        }
        if conf >= 8000 {
            self.last_show_ms = Some(now);
        }
        out
    }
}

/// A held lock stays put: with the lock on `n`, no fast relock or clear
/// request, no expiry, and a value that rounds to `n` within 0.4 BPM at
/// confidence of at least 0.90, the lock keeps `n` and the display snaps to it.
pub proof fn lemma_lock_holds(s: IntLock, n: u32, disp: int, conf: int, now: u64)
    requires
        s.locked == Some(n),
        conf >= 9000,
        round_bpm(disp) == n as int,
        frac_dist(disp) <= 400,
        s.last_show_ms matches Some(l) ==> !(now > l && now - l > LOCK_EXPIRY_MS),
    ensures
        spec_lock_step(s, disp, conf, false, false, now).0.locked == Some(n),
        spec_lock_step(s, disp, conf, false, false, now).1 == n * 1000,
{
    reveal(spec_lock_step);
}

/// During fast relock any earlier lock is dropped, and a hop with confidence
/// of at least 0.80 locks onto its own integer at once; with confidence of at
/// least 0.90 and a value within 0.4 BPM of that integer the display snaps to
/// it.
pub proof fn lemma_fast_relock_switch(s: IntLock, disp: int, conf: int, clear: bool, now: u64)
    requires
        0 <= disp <= u32::MAX,
        conf >= 8000,
    ensures
        spec_lock_step(s, disp, conf, true, clear, now).0.locked == Some(round_bpm(disp) as u32),
        conf >= 9000 && frac_dist(disp) <= 400 ==> spec_lock_step(s, disp, conf, true, clear, now).1
            == round_bpm(disp) * 1000,
{
    reveal(spec_lock_step);
}

} // verus!
