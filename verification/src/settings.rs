//! The values a user can adjust, the range each one is kept in, and the
//! effect that each control of the toolbox asks for.

use vstd::prelude::*;
use crate::effect::{
    DistortionKind, EffectParameters, Feedback, FilterMode, DELAY_FEEDBACK, DISTORTION_DRIVE,
    PASS_CUTOFF, RATE_TRANSITION,
};
use crate::units::{clamp, clamp_to, UNIT};

verus! {

/// The fastest playback rate on offer, in thousandths of normal speed.
pub const SPEED_MAX: u32 = 3_000;

/// The shortest delay on offer, in seconds.
pub const DELAY_MIN: u64 = 1;

/// The longest delay on offer, in seconds.
pub const DELAY_MAX: u64 = 5;

/// The highest cutoff on offer, in millihertz: 10 kHz.
pub const CUTOFF_MAX: u32 = 10_000_000;

/// The playback rate before the user touches it: twice normal speed.
pub const DEFAULT_SPEED: u32 = 2_000;

/// The reverb feedback before the user touches it: 0.8.
pub const DEFAULT_REVERB: u32 = 800;

/// The delay before the user touches it, in seconds.
pub const DEFAULT_DELAY: u64 = 1;

/// The cutoff before the user touches it, in millihertz: 100 Hz.
pub const DEFAULT_CUTOFF: u32 = 100_000;

/// The controls of the toolbox, one for each way of playing the file.
#[derive(Clone, Copy, Debug, PartialEq, Eq, Structural)]
pub enum Control {
    /// Play the file as it is.
    PlayNormally,
    /// Play it through a hard-clipping distortion.
    Distortion,
    /// Play it while the speed moves to the adjusted rate.
    ChangedSpeed,
    /// Play it through a reverb with the adjusted feedback.
    Reverb,
    /// Play it through a low-pass filter.
    LowPass,
    /// Play it through a high-pass filter.
    HighPass,
    /// Play it through a delay of the adjusted length.
    Delay,
    /// Play it through a low-pass filter at the adjusted cutoff.
    Cutoff,
}

/// The four adjustable values, as plain mathematics.
pub struct SettingsModel {
    /// Playback rate, in thousandths of normal speed.
    pub speed: nat,
    /// Reverb feedback, in thousandths.
    pub reverb: nat,
    /// Delay, in seconds.
    pub delay: nat,
    /// Filter cutoff, in millihertz.
    pub cutoff: nat,
}

impl SettingsModel {
    /// Whether every value lies in the range that its slider offers.
    pub open spec fn in_range(self) -> bool {
        &&& self.speed <= SPEED_MAX
        &&& self.reverb <= UNIT
        &&& DELAY_MIN <= self.delay <= DELAY_MAX
        &&& self.cutoff <= CUTOFF_MAX
    }

    /// Whether `request` is what `control` asks for under these values:
    /// nothing for plain playback, and otherwise the control's effect with
    /// the adjusted value where it has one and the fixed constants elsewhere.
    pub open spec fn asks(self, control: Control, request: Option<EffectParameters>) -> bool {
        match control {
            Control::PlayNormally => request is None,
            Control::Distortion => request == Some(
                EffectParameters::Distortion {
                    kind: DistortionKind::HardClip,
                    drive: DISTORTION_DRIVE,
                },
            ),
            Control::ChangedSpeed => request == Some(
                EffectParameters::PlaybackRate {
                    value: self.speed as u32,
                    transition: RATE_TRANSITION,
                },
            ),
            Control::Reverb => request matches Some(EffectParameters::Reverb { feedback })
                && feedback@ == self.reverb,
            Control::LowPass => request == Some(
                EffectParameters::Filter { mode: FilterMode::LowPass, cutoff: PASS_CUTOFF },
            ),
            Control::HighPass => request == Some(
                EffectParameters::Filter { mode: FilterMode::HighPass, cutoff: PASS_CUTOFF },
            ),
            Control::Delay => request == Some(
                EffectParameters::Delay {
                    time: (self.delay * 1000) as u64,
                    feedback: DELAY_FEEDBACK,
                },
            ),
            Control::Cutoff => request == Some(
                EffectParameters::Filter {
                    mode: FilterMode::LowPass,
                    cutoff: self.cutoff as u32,
                },
            ),
        }
    }
}

/// The adjustable values of one session. Each stays in the range that its
/// slider offers, whatever is written to it.
#[derive(Clone, Copy, Debug, PartialEq, Eq, Structural)]
pub struct Settings {
    speed: u32,
    reverb: Feedback,
    delay: u64,
    cutoff: u32,
}

impl View for Settings {
    type V = SettingsModel;

    closed spec fn view(&self) -> SettingsModel {
        SettingsModel {
            speed: self.speed as nat,
            reverb: self.reverb@,
            delay: self.delay as nat,
            cutoff: self.cutoff as nat,
        }
    }
}

impl Settings {
    #[verifier::type_invariant]
    closed spec fn in_range(self) -> bool {
        self@.in_range()
    }

    /// The values a session starts with.
    pub fn new() -> (settings: Settings)
        ensures
            settings@ == (SettingsModel {
                speed: DEFAULT_SPEED as nat,
                reverb: DEFAULT_REVERB as nat,
                delay: DEFAULT_DELAY as nat,
                cutoff: DEFAULT_CUTOFF as nat,
            }),
            settings@.in_range(),
    {
        Settings {
            speed: DEFAULT_SPEED,
            reverb: Feedback::clamped(DEFAULT_REVERB as i64),
            delay: DEFAULT_DELAY,
            cutoff: DEFAULT_CUTOFF,
        }
    }

    /// The playback rate, in thousandths of normal speed.
    pub fn speed(&self) -> (speed: u32)
        ensures
            speed == self@.speed,
            speed <= SPEED_MAX,
    {
        proof {
            use_type_invariant(self);
        }
        self.speed
    }

    /// The reverb feedback.
    pub fn reverb(&self) -> (reverb: Feedback)
        ensures
            reverb@ == self@.reverb,
    {
        self.reverb
    }

    /// The delay, in seconds.
    pub fn delay(&self) -> (delay: u64)
        ensures
            delay == self@.delay,
            DELAY_MIN <= delay <= DELAY_MAX,
    {
        proof {
            use_type_invariant(self);
        }
        self.delay
    }

    /// The filter cutoff, in millihertz.
    pub fn cutoff(&self) -> (cutoff: u32)
        ensures
            cutoff == self@.cutoff,
            cutoff <= CUTOFF_MAX,
    {
        proof {
            use_type_invariant(self);
        }
        self.cutoff
    }

    /// Sets the playback rate to `thousandths`, brought into
    /// `0 ..= SPEED_MAX`.
    pub fn set_speed(&mut self, thousandths: i64)
        ensures
            final(self)@ == (SettingsModel {
                speed: clamp(thousandths as int, 0, SPEED_MAX as int) as nat,
                ..old(self)@
            }),
            final(self)@.in_range(),
    {
        proof {
            use_type_invariant(&*self);
        }
        let kept: i64 = clamp_to(thousandths, 0, SPEED_MAX as i64);
        self.speed = kept as u32;
    }

    /// Sets the reverb feedback to `thousandths`, brought into `0 ..= 1000`.
    pub fn set_reverb(&mut self, thousandths: i64)
        ensures
            final(self)@ == (SettingsModel {
                reverb: clamp(thousandths as int, 0, UNIT as int) as nat,
                ..old(self)@
            }),
            final(self)@.in_range(),
    {
        proof {
            use_type_invariant(&*self);
        }
        self.reverb = Feedback::clamped(thousandths);
    }

    /// Sets the delay to `seconds`, brought into `DELAY_MIN ..= DELAY_MAX`.
    pub fn set_delay(&mut self, seconds: i64)
        ensures
            final(self)@ == (SettingsModel {
                delay: clamp(seconds as int, DELAY_MIN as int, DELAY_MAX as int) as nat,
                ..old(self)@
            }),
            final(self)@.in_range(),
    {
        proof {
            use_type_invariant(&*self);
        }
        let kept: i64 = clamp_to(seconds, DELAY_MIN as i64, DELAY_MAX as i64);
        self.delay = kept as u64;
    }

    /// Sets the filter cutoff to `millihertz`, brought into
    /// `0 ..= CUTOFF_MAX`.
    pub fn set_cutoff(&mut self, millihertz: i64)
        ensures
            final(self)@ == (SettingsModel {
                cutoff: clamp(millihertz as int, 0, CUTOFF_MAX as int) as nat,
                ..old(self)@
            }),
            final(self)@.in_range(),
    {
        proof {
            use_type_invariant(&*self);
        }
        let kept: i64 = clamp_to(millihertz, 0, CUTOFF_MAX as i64);
        self.cutoff = kept as u32;
    }

    /// The effect that `control` asks for under the present values, or
    /// `None` where it asks for plain playback. The values it is built from
    /// lie in their ranges.
    pub fn request(&self, control: Control) -> (request: Option<EffectParameters>)
        ensures
            self@.asks(control, request),
            self@.in_range(),
    {
        proof {
            use_type_invariant(self);
        }
        match control {
            Control::PlayNormally => None,
            Control::Distortion => Some(EffectParameters::distortion(DistortionKind::HardClip)),
            Control::ChangedSpeed => Some(EffectParameters::changed_speed(self.speed)),
            Control::Reverb => Some(EffectParameters::Reverb { feedback: self.reverb }),
            Control::LowPass => Some(EffectParameters::pass(FilterMode::LowPass)),
            Control::HighPass => Some(EffectParameters::pass(FilterMode::HighPass)),
            Control::Delay => Some(EffectParameters::delay(self.delay * 1000)),
            Control::Cutoff => Some(EffectParameters::cutoff(self.cutoff)),
        }
    }
}

/// Whatever control is pressed, the effect it asks for runs with values from
/// the ranges on offer: a rate of at most [`SPEED_MAX`], a feedback of at most
/// one, a delay of [`DELAY_MIN`] to [`DELAY_MAX`] seconds and a cutoff of at
/// most [`CUTOFF_MAX`].
pub proof fn law_request_stays_in_range(
    settings: SettingsModel,
    control: Control,
    request: Option<EffectParameters>,
)
    requires
        settings.in_range(),
        settings.asks(control, request),
    ensures
        match request {
            Some(EffectParameters::PlaybackRate { value, .. }) => value <= SPEED_MAX,
            Some(EffectParameters::Reverb { feedback }) => feedback@ <= UNIT,
            Some(EffectParameters::Delay { time, .. }) => DELAY_MIN * 1000 <= time <= DELAY_MAX
                * 1000,
            Some(EffectParameters::Filter { cutoff, .. }) => cutoff <= CUTOFF_MAX,
            Some(EffectParameters::Distortion { .. }) => true,
            None => true,
        },
{
}

} // verus!
