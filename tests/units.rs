use bpm_sniffer::clock::now_ms;
use bpm_sniffer::display::{level_from_db, DisplayBpm, DisplayState};
use bpm_sniffer::estimator::{
    decimation, ioi_regular, lag_for_bpm, lag_range, peaks_admit, SliceEstimate, WindowArbiter,
};
use bpm_sniffer::normalizer::GainControl;
use bpm_sniffer::pcm::{downmix_i16, i16_le};
use bpm_sniffer::harmonics::{correct_against_anchor, guard_outlier, octave_fold, Harmonic};
use bpm_sniffer::key::{camelot_from_key_name, camelot_number, same_camelot_number, str_eq, KeyProfile};
use bpm_sniffer::lock::{round_milli, IntLock};
use bpm_sniffer::log::BackendLog;
use bpm_sniffer::ring::TimedRing;
use bpm_sniffer::smoothing::{median, sorted_copy, Smoother};

#[test]
fn level_maps_db_linearly() {
    assert_eq!(level_from_db(-9000), 0);
    assert_eq!(level_from_db(-6000), 0);
    assert_eq!(level_from_db(-1800), 7000);
    assert_eq!(level_from_db(-3000), 5000);
    assert_eq!(level_from_db(0), 10000);
    assert_eq!(level_from_db(1200), 10000);
}

#[test]
fn zeroed_display_and_state_names() {
    let z = DisplayBpm::zeroed(42);
    assert_eq!(z.bpm_milli, 0);
    assert_eq!(z.confidence, 0);
    assert_eq!(z.state, DisplayState::Analyzing);
    assert_eq!(z.level, 42);
    assert_eq!(DisplayState::Analyzing.as_str(), "analyzing");
    assert_eq!(DisplayState::Tracking.as_str(), "tracking");
    assert_eq!(DisplayState::Uncertain.as_str(), "uncertain");
}

#[test]
fn octave_fold_at_exactly_ninety_goes_to_one_eighty() {
    assert_eq!(octave_fold(90000), 180000);
}

#[test]
fn octave_fold_cases() {
    assert_eq!(octave_fold(128000), 128000);
    assert_eq!(octave_fold(60000), 120000);
    assert_eq!(octave_fold(45000), 180000);
    assert_eq!(octave_fold(200000), 100000);
    assert_eq!(octave_fold(182000), 91000);
    assert_eq!(octave_fold(360000), 180000);
    // just above 180 or just below 91 alternates around the range: left as is
    assert_eq!(octave_fold(181000), 181000);
    assert_eq!(octave_fold(90500), 90500);
    assert_eq!(octave_fold(0), 0);
}

#[test]
fn anchor_doubles_half_time_raw() {
    let (b, h) = correct_against_anchor(75000, 150000);
    assert_eq!(b, 150000);
    assert_eq!(h, Harmonic::Double);
    assert_eq!(h.tag(), "dbl");
}

#[test]
fn anchor_correction_other_relations() {
    assert_eq!(correct_against_anchor(256000, 128000), (128000, Harmonic::Half));
    assert_eq!(correct_against_anchor(90000, 135000), (135000, Harmonic::ThreeHalves));
    assert_eq!(correct_against_anchor(180000, 120000), (120000, Harmonic::TwoThirds));
    assert_eq!(correct_against_anchor(128000, 128000), (128000, Harmonic::Raw));
    // within the 0.2 BPM hysteresis nothing changes
    assert_eq!(correct_against_anchor(128000, 128100), (128000, Harmonic::Raw));
}

#[test]
fn outlier_guard_cases() {
    // within 12 %: admitted as is
    assert_eq!(guard_outlier(130000, 128000, true), (true, 130000));
    // 64 against 128 is off by 50 %; its double is exact and taken
    assert_eq!(guard_outlier(64000, 128000, true), (true, 128000));
}

#[test]
fn outlier_guard_rejects() {
    // far off and no harmonic within 8 %
    assert_eq!(guard_outlier(100000, 170000, true), (false, 100000));
    assert_eq!(guard_outlier(100000, 150000, true), (true, 150000));
    // without the relative check only the range applies
    assert_eq!(guard_outlier(100000, 150000, false), (true, 100000));
    assert_eq!(guard_outlier(185000, 150000, false), (false, 185000));
}

#[test]
fn rounding_to_integer_bpm() {
    assert_eq!(round_milli(127500), 128);
    assert_eq!(round_milli(127499), 127);
    assert_eq!(round_milli(0), 0);
    assert_eq!(round_milli(u32::MAX), 4294967);
}

#[test]
fn lock_engages_and_snaps() {
    let mut l = IntLock::new();
    // 0.85 confidence: first sighting does not snap
    assert_eq!(l.step(128300, 8500, false, false, 0), 128300);
    assert_eq!(l.locked, Some(128));
    // second sighting snaps
    assert_eq!(l.step(128300, 8500, false, false, 500), 128000);
    assert_eq!(l.lock_count, 2);
}

#[test]
fn lock_snaps_at_once_with_high_confidence() {
    let mut l = IntLock::new();
    assert_eq!(l.step(139800, 9200, false, false, 0), 140000);
    assert_eq!(l.locked, Some(140));
}

#[test]
fn lock_releases_on_large_confident_jump() {
    let mut l = IntLock::new();
    l.step(128000, 9200, false, false, 0);
    assert_eq!(l.step(140000, 9200, false, false, 500), 140000);
    assert_eq!(l.locked, Some(140));
}

#[test]
fn lock_expires_after_ten_seconds() {
    let mut l = IntLock::new();
    l.step(128000, 9200, false, false, 0);
    // a low-confidence hop 11 s later finds no lock
    assert_eq!(l.step(128000, 5000, false, false, 11000), 128000);
    assert_eq!(l.locked, None);
}

#[test]
fn lock_holds_against_adjacent_integer_below_threshold() {
    let mut l = IntLock::new();
    l.step(128000, 9200, false, false, 0);
    let out = l.step(129000, 7900, false, false, 500);
    assert_eq!(out, 129000);
    assert_eq!(l.locked, Some(128));
    assert_eq!(l.alt_count, 0);
}

#[test]
fn fast_relock_drops_lock() {
    let mut l = IntLock::new();
    l.step(128000, 9200, false, false, 0);
    let out = l.step(129000, 7500, true, false, 500);
    assert_eq!(out, 129000);
    assert_eq!(l.locked, None);
    // a confident hop in fast relock locks onto its own integer at once
    assert_eq!(l.step(129000, 9200, true, false, 1000), 129000);
    assert_eq!(l.locked, Some(129));
}

#[test]
fn lock_counts_deviation() {
    let mut l = IntLock::new();
    l.step(128000, 9200, false, false, 0);
    // low confidence, 10 BPM away: deviation counted
    l.step(138000, 7000, false, false, 500);
    assert_eq!(l.dev_count, 1);
    l.step(138000, 7000, false, false, 1000);
    assert_eq!(l.dev_count, 2);
    l.step(128000, 7000, false, false, 1500);
    assert_eq!(l.dev_count, 0);
}

#[test]
fn ring_prunes_and_counts() {
    let mut r = TimedRing::new();
    r.push_prune(128000, 0, 1500);
    r.push_prune(128300, 500, 1500);
    r.push_prune(140000, 1000, 1500);
    r.push_prune(128100, 2000, 1500);
    // the entry at 0 ms is 2000 ms old and dropped
    assert_eq!(r.len(), 3);
    assert_eq!(r.items[0], (128300, 500));
    assert_eq!(r.count_recent_near(2000, 1500, 128000, 800), 2);
    assert_eq!(r.count_recent_near(2000, 1000, 128000, 800), 1);
    assert_eq!(r.recent_start(2000, 1000), 1);
    r.clear();
    assert_eq!(r.len(), 0);
}

#[test]
fn ring_mode_picks_most_frequent() {
    let mut r = TimedRing::new();
    r.push_prune(128, 0, 1500);
    r.push_prune(140, 500, 1500);
    r.push_prune(140, 1000, 1500);
    r.push_prune(128, 1500, 1500);
    r.push_prune(140, 1600, 1500);
    assert_eq!(r.recent_mode(1600, 1500), Some((140, 3)));
    assert_eq!(r.recent_mode(1600, 50), Some((140, 1)));
    assert_eq!(r.recent_mode(1_000_000, 10), None);
    let e = TimedRing::new();
    assert_eq!(e.recent_mode(0, 1500), None);
}

#[test]
fn decimation_rounds_to_two_hundred_hz() {
    assert_eq!(decimation(48000), 240);
    assert_eq!(decimation(44100), 221);
    assert_eq!(decimation(100), 1);
    assert_eq!(decimation(0), 1);
}

#[test]
fn lag_range_spans_91_to_180_bpm() {
    assert_eq!(lag_range(), (67, 132));
    assert_eq!(lag_for_bpm(120), 100);
}

#[test]
fn short_window_is_two_seconds_in_range() {
    let a = WindowArbiter::new();
    assert_eq!(a.short_window_len(), 400);
}

fn slice(bpm: u32, conf: u32) -> SliceEstimate {
    SliceEstimate { bpm_milli: bpm, confidence: conf, win_ms: 4000 }
}

#[test]
fn arbitration_prefers_long_by_default() {
    let mut a = WindowArbiter::new();
    let r = a.arbitrate(Some(slice(128000, 8000)), Some(slice(140000, 8000))).unwrap();
    assert_eq!(r.bpm_milli, 128000);
    assert!(!r.from_short);
    assert_eq!(a.short_consistency, 1);
    assert_eq!(a.last_bpm, Some(128000));
}

#[test]
fn arbitration_prefers_consistent_short() {
    let mut a = WindowArbiter::new();
    a.arbitrate(Some(slice(128000, 8000)), Some(slice(140000, 8000)));
    let r = a.arbitrate(Some(slice(128000, 8000)), Some(slice(140500, 6000))).unwrap();
    assert_eq!(r.bpm_milli, 140500);
    assert!(r.from_short);
    assert_eq!(a.short_consistency, 2);
    // short confidence below 75 % of the long one keeps the long window
    let r = a.arbitrate(Some(slice(128000, 8000)), Some(slice(140500, 5000))).unwrap();
    assert_eq!(r.bpm_milli, 128000);
}

#[test]
fn arbitration_single_and_none() {
    let mut a = WindowArbiter::new();
    let r = a.arbitrate(None, Some(slice(150000, 5000))).unwrap();
    assert!(r.from_short);
    assert_eq!(a.last_bpm, Some(150000));
    assert_eq!(a.arbitrate(None, None), None);
    assert_eq!(a.last_bpm, Some(150000));
    let r = a.arbitrate(Some(slice(120000, 5000)), None).unwrap();
    assert!(!r.from_short);
    assert_eq!(r.win_ms, 4000);
}

#[test]
fn camelot_codes() {
    assert_eq!(camelot_from_key_name("C"), Some("8B"));
    assert_eq!(camelot_from_key_name("Am"), Some("8A"));
    assert_eq!(camelot_from_key_name("C#m"), Some("12A"));
    assert_eq!(camelot_from_key_name("B"), Some("1B"));
    assert_eq!(camelot_from_key_name("H"), None);
    assert_eq!(camelot_from_key_name(""), None);
}

#[test]
fn camelot_numbers() {
    assert_eq!(camelot_number("C"), Some(8));
    assert_eq!(camelot_number("E"), Some(12));
    assert_eq!(camelot_number("C#m"), Some(12));
    assert_eq!(camelot_number("G#m"), Some(1));
    assert_eq!(camelot_number("Bm"), Some(10));
    assert_eq!(camelot_number("nope"), None);
    assert!(same_camelot_number("C", "Am"));
    assert!(!same_camelot_number("C", "Cm"));
    assert!(!same_camelot_number("x", "x"));
}

#[test]
fn string_equality() {
    assert!(str_eq("C#", "C#"));
    assert!(!str_eq("C#", "C"));
    assert!(str_eq("", ""));
}

#[test]
fn key_profile_variants_differ() {
    assert_ne!(KeyProfile::KrumhanslSchmuckler, KeyProfile::EdmTriadV1);
}

#[test]
fn clock_reads_after_2020() {
    assert!(now_ms() > 1_577_836_800_000);
}

#[test]
fn backend_log_keeps_fields() {
    let l = BackendLog::new(5, String::from("hello"));
    assert_eq!(l.t_ms, 5);
    assert_eq!(l.msg, "hello");
}

#[test]
fn gain_rises_with_attack_toward_target() {
    let mut g = GainControl::new();
    assert_eq!(g.gain_centi, 0);
    // -30 dBFS needs +12 dB; attack 0.25
    assert_eq!(g.update(-3000, 5000), 300);
    assert_eq!(g.update(-3000, 5000), 525);
}

#[test]
fn gain_ceiling_depends_on_rhythm_ratio() {
    let mut weak = GainControl::new();
    // -90 dBFS would need +72 dB: capped at +18 dB with a weak rhythm band
    assert_eq!(weak.update(-9000, 1000), 450);
    let mut strong = GainControl::new();
    // and at +42 dB with a rhythm ratio of at least 0.25
    assert_eq!(strong.update(-9000, 3000), 1050);
}

#[test]
fn gain_falls_with_release_to_floor() {
    let mut g = GainControl::new();
    // 0 dBFS would need -18 dB: floored at -12 dB, release 0.08
    assert_eq!(g.update(0, 5000), -96);
    g.on_silence();
    assert_eq!(g.gain_centi, 0);
}

#[test]
fn peak_gates() {
    assert!(peaks_admit(2, 400));
    assert!(!peaks_admit(1, 400));
    assert!(!peaks_admit(3, 800));
    assert!(peaks_admit(4, 800));
    // more than 14 peaks per second
    assert!(!peaks_admit(200, 400));
    // fewer than 0.2 peaks per second
    assert!(!peaks_admit(2, 2001));
}

#[test]
fn ioi_gate_accepts_regular_and_rejects_erratic() {
    assert!(ioi_regular(&vec![0, 100, 200, 300]));
    assert!(ioi_regular(&vec![0, 100, 150, 300]));
    // intervals 10, 190, 10, 190: coefficient of variation 0.9
    assert!(!ioi_regular(&vec![0, 10, 200, 210, 400]));
    // fewer than four peaks are not judged
    assert!(ioi_regular(&vec![0, 10, 400]));
}

#[test]
fn i16_little_endian_decoding() {
    assert_eq!(i16_le(0x00, 0x80), -32768);
    assert_eq!(i16_le(0xff, 0x7f), 32767);
    assert_eq!(i16_le(0xff, 0xff), -1);
    assert_eq!(i16_le(0x34, 0x12), 0x1234);
}

#[test]
fn downmix_sums_first_two_channels() {
    let stereo = vec![1, 0, 3, 0, 0xff, 0xff, 1, 0, 9, 9];
    // two complete frames; the trailing partial one is dropped
    assert_eq!(downmix_i16(&stereo, 2), vec![4, 0]);
    let mono = vec![2, 0, 0xfe, 0xff];
    assert_eq!(downmix_i16(&mono, 1), vec![4, -4]);
    let three = vec![1, 0, 2, 0, 100, 0];
    assert_eq!(downmix_i16(&three, 3), vec![3]);
    assert_eq!(downmix_i16(&vec![], 2), Vec::<i32>::new());
}

#[test]
fn median_of_recent_values() {
    assert_eq!(median(&vec![3, 1, 2]), 2);
    assert_eq!(median(&vec![4, 1, 3, 2]), 3);
    assert_eq!(median(&vec![5]), 5);
    assert_eq!(sorted_copy(&vec![3, 1, 2, 1]), vec![1, 1, 2, 3]);
}

#[test]
fn smoother_average_and_tracker() {
    let mut s = Smoother::new();
    s.step(128000, 9000);
    assert_eq!(s, Smoother { ema: Some(128000), x: Some(128000), v: 0 });
    s.step(130000, 9000);
    assert_eq!(s, Smoother { ema: Some(128300), x: Some(128084), v: 36 });
    // below 0.80 the tracker's position becomes the smoothed value
    s.step(130000, 6000);
    assert_eq!(s, Smoother { ema: Some(128178), x: Some(128178), v: 68 });
}

#[test]
fn ring_values_in_order() {
    let mut r = TimedRing::new();
    r.push_prune(7, 0, 1500);
    r.push_prune(9, 10, 1500);
    assert_eq!(r.values(), vec![7, 9]);
}
