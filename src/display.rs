//! The value shown to consumers after each analysis hop.
use vstd::prelude::*;

verus! {

/// One basis-point unit scale: 10000 stands for 1.0.
pub const UNIT: u32 = 10000;

/// Highest confidence ever reported to a consumer (0.95).
pub const MAX_REPORTED_CONF: u32 = 9500;

/// Coarse tracking state reported with each display value.
#[derive(Clone, Copy, Debug, PartialEq, Eq, Structural)]
pub enum DisplayState {
    Analyzing,
    Tracking,
    Uncertain,
}

/// The state's name as consumers see it.
pub open spec fn spec_state_name(s: DisplayState) -> Seq<char> {
    match s {
        DisplayState::Analyzing => "analyzing"@,
        DisplayState::Tracking => "tracking"@,
        DisplayState::Uncertain => "uncertain"@,
    }
}

impl DisplayState {
    pub fn as_str(&self) -> (r: &'static str)
        ensures
            r@ == spec_state_name(*self),
    {
        match self {
            DisplayState::Analyzing => "analyzing",
            DisplayState::Tracking => "tracking",
            DisplayState::Uncertain => "uncertain",
        }
    }
}

/// A published display value.
#[derive(Clone, Copy, Debug, PartialEq, Eq, Structural)]
pub struct DisplayBpm {
    /// Tempo in milli-BPM (0 when nothing is shown).
    pub bpm_milli: u32,
    /// Confidence in basis points.
    pub confidence: u32,
    pub state: DisplayState,
    /// Loudness level in basis points.
    pub level: u32,
}

impl DisplayBpm {
    /// Confidence and level lie in their reported ranges.
    pub open spec fn in_range(&self) -> bool {
        self.confidence <= MAX_REPORTED_CONF && self.level <= UNIT
    }

    /// The zeroed display: nothing tracked, at the given level.
    pub open spec fn spec_zeroed(level: u32) -> DisplayBpm {
        DisplayBpm { bpm_milli: 0, confidence: 0, state: DisplayState::Analyzing, level }
    }

    pub fn zeroed(level: u32) -> (r: DisplayBpm)
        ensures
            r == DisplayBpm::spec_zeroed(level),
    {
        DisplayBpm { bpm_milli: 0, confidence: 0, state: DisplayState::Analyzing, level }
    }
}

/// The level of a window whose RMS is `db_centi` hundredths of a dBFS:
/// (dB + 60) / 60, clamped to [0, 1], in basis points.
pub open spec fn spec_level(db_centi: int) -> int {
    if db_centi <= -6000 {
        0
    } else if db_centi >= 0 {
        UNIT as int
    } else {
        (db_centi + 6000) * 5 / 3
    }
}

pub fn level_from_db(db_centi: i32) -> (r: u32)
    ensures
        r as int == spec_level(db_centi as int),
        r <= UNIT,
{
    if db_centi <= -6000 {
        0
    } else if db_centi >= 0 {
        UNIT
    } else {
        let x: u32 = (db_centi + 6000) as u32;
        x * 5 / 3
    }
}

/// Windows quieter than this level (0.03) count as silence.
pub const SILENCE_LEVEL: u32 = 300;

} // verus!
