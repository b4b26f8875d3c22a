//! Real-time tempo tracking for system audio: the decision logic that turns
//! per-hop raw tempo estimates into a stable, integer-locked BPM display.
//!
//! All quantities are fixed point: tempi in milli-BPM, confidences and levels
//! in basis points (10000 = 1.0), loudness in centi-dB, and time in
//! milliseconds.
//!
//! - `stabilizer`: the per-hop display controller (gates, anchor, relock)
//! - `lock`: the integer lock of the displayed tempo
//! - `harmonics`: octave folding, anchor correction, the outlier rule
//! - `ring`: time-stamped value histories, near-counts and majority
//! - `smoothing`: median, moving average and alpha-beta tracker
//! - `estimator`: integer decisions of the tempo estimator
//! - `normalizer`: gain control of the loudness normalizer
//! - `pcm`: 16-bit PCM decoding and down-mix
//! - `display`, `key`, `log`, `clock`: display values, Camelot codes,
//!   diagnostic lines, wall-clock time
use vstd::prelude::*;

pub mod clock;
pub mod display;
pub mod estimator;
pub mod harmonics;
pub mod key;
pub mod lock;
pub mod log;
pub mod normalizer;
pub mod pcm;
pub mod ring;
pub mod smoothing;
pub mod stabilizer;

verus! {

} // verus!
