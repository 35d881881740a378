//! Settings of effects: how an effect's speed follows a speed master, and
//! the wave forms of keyframe effects.

use vstd::prelude::*;

verus! {

/// The factor by which an effect runs relative to its speed master, from
/// 1/128 to 128.
#[derive(Debug, Clone)]
pub enum EffectSpeedScale {
    Div128,
    Div64,
    Div32,
    Div16,
    Div8,
    Div4,
    Div2,
    One,
    Mul2,
    Mul4,
    Mul8,
    Mul16,
    Mul32,
    Mul64,
    Mul128,
}

impl Default for EffectSpeedScale {
    fn default() -> (res: EffectSpeedScale)
        ensures
            res == EffectSpeedScale::One,
    {
        EffectSpeedScale::One
    }
}

/// How an effect synchronises with its speed master's beat.
#[derive(Debug, Clone, Copy, PartialEq, Eq, Structural)]
pub enum EffectSpeedSyncMode {
    NoSync,
    SyncBeatFrac,
    SyncBeat,
}

impl Default for EffectSpeedSyncMode {
    fn default() -> (res: EffectSpeedSyncMode)
        ensures
            res == EffectSpeedSyncMode::NoSync,
    {
        EffectSpeedSyncMode::NoSync
    }
}

impl EffectSpeedSyncMode {
    /// The effect follows the beat in some way.
    pub fn is_synced(&self) -> (res: bool)
        ensures
            res == !(*self is NoSync),
    {
        match self {
            EffectSpeedSyncMode::NoSync => false,
            _ => true,
        }
    }
}

/// The wave form between two keyframes of an effect.
#[derive(Debug, Clone, Copy, PartialEq, Eq, Structural)]
pub enum WaveType {
    Triangle,
    Square,
    Bezier,
}

impl Default for WaveType {
    fn default() -> (res: WaveType)
        ensures
            res == WaveType::Triangle,
    {
        WaveType::Triangle
    }
}

} // verus!
