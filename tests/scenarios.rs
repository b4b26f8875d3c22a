use bpm_sniffer::display::{DisplayBpm, DisplayState};
use bpm_sniffer::estimator::BpmEstimate;
use bpm_sniffer::lock::round_milli;
use bpm_sniffer::stabilizer::{Hop, Stabilizer};

const HOP_MS: u64 = 500;
/// -18 dBFS as RMS in units of 1e-9.
const RMS_M18: u64 = 125_892_541;
/// -12 dBFS as RMS in units of 1e-9.
const RMS_M12: u64 = 251_188_643;

fn beat(bpm_milli: u32, conf: u32) -> Hop {
    Hop {
        rms_nano: RMS_M18,
        rms_db_centi: -1800,
        estimate: Some(BpmEstimate { bpm_milli, confidence: conf, from_short: false, win_ms: 4000 }),
    }
}

fn no_beat() -> Hop {
    Hop { rms_nano: RMS_M18, rms_db_centi: -1800, estimate: None }
}

fn silence() -> Hop {
    Hop { rms_nano: 0, rms_db_centi: -18000, estimate: None }
}

/// Feeds `n` copies of `hop` starting at `t0`; returns what each hop published.
fn feed(s: &mut Stabilizer, hop: Hop, n: u64, t0: u64) -> Vec<Option<DisplayBpm>> {
    (0..n).map(|i| s.process_hop(hop, t0 + i * HOP_MS)).collect()
}

fn shown(s: &Stabilizer) -> DisplayBpm {
    s.st.shown.unwrap()
}

#[test]
fn steady_128_kick_converges_and_stays() {
    let mut s = Stabilizer::new();
    let out = feed(&mut s, beat(128000, 9000), 16, 0);
    // within 3 s (six hops) it is tracking at 128
    for p in &out[5..] {
        let d = p.unwrap();
        assert_eq!(d.bpm_milli, 128000);
        assert_eq!(d.state, DisplayState::Tracking);
        assert!(d.confidence >= 8000);
        assert_eq!(d.level, 7000);
    }
}

#[test]
fn tempo_switch_128_to_140() {
    let mut s = Stabilizer::new();
    feed(&mut s, beat(128000, 9000), 12, 0);
    let out = feed(&mut s, beat(140000, 9000), 6, 6000);
    for p in out.iter().flatten() {
        if p.state == DisplayState::Tracking {
            assert!(p.bpm_milli == 128000 || p.bpm_milli == 140000);
        }
    }
    let d = shown(&s);
    assert_eq!(d.bpm_milli, 140000);
    assert_eq!(d.state, DisplayState::Tracking);
}

#[test]
fn half_time_raw_is_held_at_anchor_150() {
    let mut s = Stabilizer::new();
    feed(&mut s, beat(150000, 9000), 8, 0);
    assert_eq!(s.st.anchor, Some(150000));
    let out = feed(&mut s, beat(75000, 9000), 8, 4000);
    for p in out.iter().flatten() {
        assert_eq!(p.bpm_milli, 150000);
    }
    assert_eq!(shown(&s).bpm_milli, 150000);
}

#[test]
fn silence_then_174_drum_loop() {
    let mut s = Stabilizer::new();
    for p in feed(&mut s, silence(), 6, 0) {
        let d = p.unwrap();
        assert_eq!(d.bpm_milli, 0);
        assert_eq!(d.state, DisplayState::Analyzing);
        assert_eq!(d.level, 0);
    }
    // the estimator needs a moment of audio before its first estimate
    let first = s.process_hop(no_beat(), 3000).unwrap();
    assert_eq!(first.bpm_milli, 0);
    assert_eq!(first.state, DisplayState::Analyzing);
    feed(&mut s, beat(174000, 9000), 5, 3500);
    let d = shown(&s);
    assert_eq!(d.state, DisplayState::Tracking);
    assert!((173..=175).contains(&round_milli(d.bpm_milli)));
}

#[test]
fn silence_round_trip() {
    let mut s = Stabilizer::new();
    feed(&mut s, beat(128000, 9000), 8, 0);
    feed(&mut s, silence(), 4, 4000);
    let d = shown(&s);
    assert_eq!(d.bpm_milli, 0);
    assert_eq!(d.state, DisplayState::Analyzing);
    assert!(!s.st.tracking);
    assert_eq!(s.st.lock.locked, None);
    feed(&mut s, beat(128000, 9000), 8, 6000);
    assert_eq!(shown(&s).state, DisplayState::Tracking);
    assert_eq!(shown(&s).bpm_milli, 128000);
}

#[test]
fn noise_only_never_tracks() {
    let mut s = Stabilizer::new();
    let mut t = 0;
    let tempi = [97000u32, 143000, 121000, 166000, 108000, 131000, 152000, 99000];
    for i in 0..40u64 {
        let hop = if i % 3 == 0 {
            no_beat()
        } else {
            beat(tempi[(i as usize) % tempi.len()], 2000)
        };
        if let Some(d) = s.process_hop(hop, t) {
            assert_ne!(d.state, DisplayState::Tracking);
        }
        assert_eq!(s.st.lock.locked, None);
        t += HOP_MS;
    }
    assert!(!s.st.ever_locked);
}

#[test]
fn sample_rate_change_mid_stream() {
    let mut s = Stabilizer::new();
    feed(&mut s, beat(128000, 9000), 10, 0);
    let z = s.on_sample_rate_change();
    assert_eq!(z, DisplayBpm::zeroed(0));
    assert_eq!(shown(&s).bpm_milli, 0);
    feed(&mut s, beat(128000, 9000), 8, 5000);
    let d = shown(&s);
    assert_eq!(d.state, DisplayState::Tracking);
    assert_eq!(d.bpm_milli, 128000);
}

#[test]
fn reset_twice_equals_reset_once() {
    let mut a = Stabilizer::new();
    feed(&mut a, beat(128000, 9000), 10, 0);
    a.reset();
    let once = a.st;
    a.reset();
    assert_eq!(a.st, once);
    assert_eq!(a.stable_vals.len(), 0);
    assert_eq!(a.ints_cand.len(), 0);
    assert_eq!(a.ints_shown.len(), 0);
    assert_eq!(shown(&a), DisplayBpm::zeroed(0));
}

#[test]
fn published_confidence_and_level_in_range() {
    let mut s = Stabilizer::new();
    let mut x: u64 = 12345;
    for i in 0..400u64 {
        x = x.wrapping_mul(6364136223846793005).wrapping_add(1442695040888963407);
        let db = 600 - ((x >> 20) % 9000) as i32;
        let est = if (x >> 7) % 4 == 0 {
            None
        } else {
            Some(BpmEstimate {
                bpm_milli: ((x >> 30) % 300000) as u32,
                confidence: ((x >> 12) % 20000) as u32,
                from_short: (x >> 3) % 2 == 0,
                win_ms: ((x >> 40) % 5000) as u32,
            })
        };
        let hop = Hop { rms_nano: (x >> 33) % 2_000_000_000, rms_db_centi: db, estimate: est };
        if let Some(d) = s.process_hop(hop, i * HOP_MS) {
            assert!(d.confidence <= 9500);
            assert!(d.level <= 10000);
        }
    }
}

#[test]
fn sinusoid_tempi_91_to_180_track_within_one_bpm() {
    for bpm in 91u32..=180 {
        let mut s = Stabilizer::new();
        for i in 0..8u64 {
            let jitter: i64 = if i % 2 == 0 { 300 } else { -300 };
            let raw = (bpm as i64 * 1000 + jitter) as u32;
            s.process_hop(beat(raw, 8500), i * HOP_MS);
        }
        let d = shown(&s);
        assert_eq!(d.state, DisplayState::Tracking, "bpm {}", bpm);
        let n = round_milli(d.bpm_milli) as i64;
        assert!((n - bpm as i64).abs() <= 1, "bpm {} shown {}", bpm, d.bpm_milli);
    }
}

#[test]
fn tempi_outside_range_are_folded() {
    let mut cases: Vec<(u32, u32)> = (60u32..=90).map(|b| (b * 1000, b * 2000)).collect();
    cases.extend((182u32..=200).map(|b| (b * 1000, b * 500)));
    for (raw, mapped) in cases {
        let mut s = Stabilizer::new();
        feed(&mut s, beat(raw, 9000), 8, 0);
        let d = shown(&s);
        assert!(d.bpm_milli >= 91000 && d.bpm_milli <= 180000, "raw {}", raw);
        assert!((d.bpm_milli as i64 - mapped as i64).abs() <= 500, "raw {} shown {}", raw, d.bpm_milli);
    }
}

#[test]
fn ninety_bpm_input_shows_180() {
    let mut s = Stabilizer::new();
    feed(&mut s, beat(90000, 9000), 6, 0);
    assert_eq!(shown(&s).bpm_milli, 180000);
    assert_eq!(shown(&s).state, DisplayState::Tracking);
}

#[test]
fn locked_integer_changes_at_most_once_in_ten_seconds() {
    let mut s = Stabilizer::new();
    let out = feed(&mut s, beat(128200, 9000), 20, 0);
    let ints: Vec<u32> = out.iter().flatten().map(|d| round_milli(d.bpm_milli)).collect();
    let changes = ints.windows(2).filter(|w| w[0] != w[1]).count();
    assert!(changes <= 1);
}

#[test]
fn loudness_jump_starts_fast_relock() {
    let mut s = Stabilizer::new();
    feed(&mut s, beat(128000, 9000), 8, 0);
    assert_eq!(s.st.anchor, Some(128000));
    let hop = Hop {
        rms_nano: RMS_M12,
        rms_db_centi: -1200,
        estimate: Some(BpmEstimate { bpm_milli: 140000, confidence: 9000, from_short: true, win_ms: 2000 }),
    };
    let d = s.process_hop(hop, 4000).unwrap();
    assert_eq!(s.st.fast_deadline, Some(6000));
    // the old anchor was dropped; the new tempo seeds it again
    assert_eq!(s.st.anchor, Some(140000));
    assert_eq!(d.bpm_milli, 140000);
    assert_eq!(s.st.lock.locked, Some(140));
}

#[test]
fn runs_without_estimate_drop_tracking() {
    let mut s = Stabilizer::new();
    feed(&mut s, beat(128000, 9000), 6, 0);
    let out = feed(&mut s, no_beat(), 6, 3000);
    let last = out[5].unwrap();
    assert_eq!(last.confidence, 0);
    assert_eq!(last.bpm_milli, 128000);
    assert_eq!(last.state, DisplayState::Analyzing);
    assert_eq!(out[0].unwrap().state, DisplayState::Uncertain);
    assert!(s.st.recovering);
    assert!(!s.st.tracking);
}

#[test]
fn stall_zeroes_display() {
    let mut s = Stabilizer::new();
    feed(&mut s, beat(128000, 9000), 6, 0);
    assert_eq!(s.note_no_data(1000), None);
    assert_eq!(s.note_no_data(600), Some(DisplayBpm::zeroed(0)));
    assert!(!s.st.tracking);
    assert_eq!(s.st.no_data_ms, 0);
    s.note_data();
    assert_eq!(s.note_no_data(1000), None);
}

#[test]
fn soft_gate_publishes_uncertain_after_three_agreeing_hops() {
    let mut s = Stabilizer::new();
    // raw 0.50 boosted to 0.575: below the hard gate, above the soft one
    let out = feed(&mut s, beat(128000, 5000), 3, 0);
    assert_eq!(out[0], None);
    assert_eq!(out[1], None);
    let d = out[2].unwrap();
    assert_eq!(d.bpm_milli, 128000);
    assert_eq!(d.state, DisplayState::Uncertain);
    assert_eq!(d.confidence, 5750);
}

#[test]
fn majority_gate_publishes_agreed_integer() {
    let mut s = Stabilizer::new();
    // raw 0.40 boosted to 0.46: below both the hard and the soft gate
    let out = feed(&mut s, beat(140200, 4000), 3, 0);
    assert_eq!(out[0], None);
    assert_eq!(out[1], None);
    let d = out[2].unwrap();
    assert_eq!(d.bpm_milli, 140000);
    assert_eq!(d.state, DisplayState::Uncertain);
    assert_eq!(d.confidence, 4600);
}
