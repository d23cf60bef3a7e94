//! The parameters of each effect the toolbox can put on a sound.

use vstd::prelude::*;
use crate::units::{clamp, clamp_to, UNIT};

verus! {

/// The cutoff of a pass filter that was given none, in millihertz: 1 kHz,
/// the audio engine's own default.
pub const PASS_CUTOFF: u32 = 1_000_000;

/// The drive of every distortion, in thousandths of a decibel: 15 dB.
pub const DISTORTION_DRIVE: i32 = 15_000;

/// The feedback of every delay, in thousandths of a decibel: 2 dB. This is a
/// gain above unity, so each repeat comes back louder than the one before.
pub const DELAY_FEEDBACK: i32 = 2_000;

/// How long a change of playback rate takes to settle, in milliseconds.
pub const RATE_TRANSITION: u64 = 3_000;

/// Which frequencies a filter removes.
#[derive(Clone, Copy, Debug, PartialEq, Eq, Structural)]
pub enum FilterMode {
    /// Removes what lies above the cutoff.
    LowPass,
    /// Removes what lies above and below the cutoff.
    BandPass,
    /// Removes what lies below the cutoff.
    HighPass,
    /// Removes what lies around the cutoff.
    Notch,
}

/// How a distortion bends the signal.
#[derive(Clone, Copy, Debug, PartialEq, Eq, Structural)]
pub enum DistortionKind {
    /// The signal is cut off at full scale.
    HardClip,
    /// The signal is flattened gradually as it nears full scale.
    SoftClip,
}

/// How much a room reverberates: from 0, not at all, to 1, for ever. Held in
/// thousandths, and never outside `0 ..= 1000`.
#[derive(Clone, Copy, Debug, PartialEq, Eq, Structural)]
pub struct Feedback {
    thousandths: u32,
}

impl View for Feedback {
    type V = nat;

    closed spec fn view(&self) -> nat {
        self.thousandths as nat
    }
}

impl Feedback {
    #[verifier::type_invariant]
    closed spec fn in_range(self) -> bool {
        self.thousandths <= UNIT
    }

    /// The feedback nearest to `thousandths`: anything below 0 becomes 0,
    /// anything above 1000 becomes 1000.
    pub fn clamped(thousandths: i64) -> (feedback: Feedback)
        ensures
            feedback@ == clamp(thousandths as int, 0, UNIT as int),
    {
        let kept: i64 = clamp_to(thousandths, 0, UNIT as i64);
        Feedback { thousandths: kept as u32 }
    }

    /// The feedback in thousandths.
    pub fn thousandths(&self) -> (thousandths: u32)
        ensures
            thousandths == self@,
            thousandths <= UNIT,
    {
        proof {
            use_type_invariant(self);
        }
        self.thousandths
    }
}

/// One effect and the values it runs with.
#[allow(inconsistent_fields)]
#[derive(Clone, Copy, Debug, PartialEq, Eq, Structural)]
pub enum EffectParameters {
    /// A filter: what it removes, and around which frequency (millihertz).
    Filter { mode: FilterMode, cutoff: u32 },
    /// A reverb with the given feedback.
    Reverb { feedback: Feedback },
    /// A distortion: its shape, and the gain put on the signal before it is
    /// bent (thousandths of a decibel).
    Distortion { kind: DistortionKind, drive: i32 },
    /// A delay: the time between repeats (milliseconds) and the gain of each
    /// repeat over the one before (thousandths of a decibel).
    Delay { time: u64, feedback: i32 },
    /// A change of playback rate: the new rate (thousandths of normal speed)
    /// and the time over which it is reached (milliseconds).
    PlaybackRate { value: u32, transition: u64 },
}

impl EffectParameters {
    /// A filter of the given mode at the default cutoff.
    pub fn pass(mode: FilterMode) -> (parameters: EffectParameters)
        ensures
            parameters == (EffectParameters::Filter { mode, cutoff: PASS_CUTOFF }),
    {
        EffectParameters::Filter { mode, cutoff: PASS_CUTOFF }
    }

    /// A low-pass filter at `cutoff` millihertz.
    pub fn cutoff(cutoff: u32) -> (parameters: EffectParameters)
        ensures
            parameters == (EffectParameters::Filter { mode: FilterMode::LowPass, cutoff }),
    {
        EffectParameters::Filter { mode: FilterMode::LowPass, cutoff }
    }

    /// A reverb whose feedback is `thousandths`, brought into `0 ..= 1000`.
    pub fn reverb(thousandths: i64) -> (parameters: EffectParameters)
        ensures
            parameters matches EffectParameters::Reverb { feedback }
                && feedback@ == clamp(thousandths as int, 0, UNIT as int),
    {
        EffectParameters::Reverb { feedback: Feedback::clamped(thousandths) }
    }

    /// A distortion of the given kind at the fixed drive.
    pub fn distortion(kind: DistortionKind) -> (parameters: EffectParameters)
        ensures
            parameters == (EffectParameters::Distortion { kind, drive: DISTORTION_DRIVE }),
    {
        EffectParameters::Distortion { kind, drive: DISTORTION_DRIVE }
    }

    /// A delay that repeats every `time` milliseconds at the fixed feedback.
    pub fn delay(time: u64) -> (parameters: EffectParameters)
        ensures
            parameters == (EffectParameters::Delay { time, feedback: DELAY_FEEDBACK }),
    {
        EffectParameters::Delay { time, feedback: DELAY_FEEDBACK }
    }

    /// A move to `value` thousandths of normal speed over the fixed
    /// transition time.
    pub fn changed_speed(value: u32) -> (parameters: EffectParameters)
        ensures
            parameters == (EffectParameters::PlaybackRate { value, transition: RATE_TRANSITION }),
    {
        EffectParameters::PlaybackRate { value, transition: RATE_TRANSITION }
    }
}

} // verus!
