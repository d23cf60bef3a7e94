//! A decoded clip: interleaved samples with their rate and channel count.

use vstd::prelude::*;
use crate::failure::Failure;

verus! {

/// What a buffer holds, as plain mathematics.
pub struct AudioModel {
    /// The samples, frame after frame, one sample per channel in each frame.
    pub samples: Seq<i16>,
    /// Frames per second.
    pub sample_rate: nat,
    /// Samples per frame.
    pub channels: nat,
}

impl AudioModel {
    /// Whether this describes a clip that can be played: at least one whole
    /// frame and no partial one, at a positive rate.
    pub open spec fn usable(self) -> bool {
        &&& self.samples.len() > 0
        &&& self.sample_rate > 0
        &&& self.channels > 0
        &&& self.samples.len() % self.channels == 0
    }

    /// The number of frames.
    pub open spec fn frames(self) -> nat {
        self.samples.len() / self.channels
    }

    /// The time the clip takes at normal speed, in whole milliseconds,
    /// rounded down.
    pub open spec fn duration_millis(self) -> nat {
        self.frames() * 1000 / self.sample_rate
    }

    /// The frame number `index` as it is heard on two speakers, left then
    /// right. A mono clip is heard alike on both sides; of a clip with more
    /// channels the first is heard on the left and the second on the right.
    pub open spec fn heard(self, index: int) -> (i16, i16) {
        let first = index * self.channels;
        if self.channels == 1 {
            (self.samples[first], self.samples[first])
        } else {
            (self.samples[first], self.samples[first + 1])
        }
    }
}

/// The model of a buffer that holds these samples at this rate.
pub open spec fn model_of(samples: Seq<i16>, sample_rate: u32, channels: u16) -> AudioModel {
    AudioModel { samples, sample_rate: sample_rate as nat, channels: channels as nat }
}

/// A decoded clip. It is never empty, its rate is never zero, and it does not
/// change once made.
#[derive(Debug, PartialEq, Eq)]
pub struct AudioBuffer {
    samples: Vec<i16>,
    sample_rate: u32,
    channels: u16,
}

impl View for AudioBuffer {
    type V = AudioModel;

    closed spec fn view(&self) -> AudioModel {
        model_of(self.samples@, self.sample_rate, self.channels)
    }
}

impl Clone for AudioBuffer {
    /// A second buffer with the same samples, rate and channel count.
    fn clone(&self) -> (copy: Self)
        ensures
            copy@ == self@,
    {
        proof {
            use_type_invariant(self);
        }
        let samples: Vec<i16> = self.samples.clone();
        assert(samples@ =~= self.samples@);
        AudioBuffer { samples, sample_rate: self.sample_rate, channels: self.channels }
    }
}

impl AudioBuffer {
    #[verifier::type_invariant]
    closed spec fn usable(self) -> bool {
        self@.usable()
    }

    /// Takes over what a decoder produced, if it is a usable clip.
    ///
    /// `samples` are interleaved: `channels` samples make one frame. The
    /// result is [`Failure::Decode`] where there is no sample, where the rate
    /// or the channel count is zero, or where the last frame is incomplete.
    pub fn from_decoded(samples: Vec<i16>, sample_rate: u32, channels: u16) -> (decoded: Result<
        AudioBuffer,
        Failure,
    >)
        ensures
            decoded is Ok <==> model_of(samples@, sample_rate, channels).usable(),
            decoded matches Ok(buffer) ==> buffer@ == model_of(samples@, sample_rate, channels),
            decoded matches Err(failure) ==> failure == Failure::Decode,
    {
        let length: usize = samples.len();
        if length == 0 || sample_rate == 0 || channels == 0 {
            return Err(Failure::Decode);
        }
        if length % (channels as usize) != 0 {
            return Err(Failure::Decode);
        }
        Ok(AudioBuffer { samples, sample_rate, channels })
    }

    /// Frames per second; never zero.
    pub fn sample_rate(&self) -> (rate: u32)
        ensures
            rate == self@.sample_rate,
            rate > 0,
    {
        proof {
            use_type_invariant(self);
        }
        self.sample_rate
    }

    /// Samples per frame; never zero.
    pub fn channels(&self) -> (channels: u16)
        ensures
            channels == self@.channels,
            channels > 0,
    {
        proof {
            use_type_invariant(self);
        }
        self.channels
    }

    /// The interleaved samples; never empty.
    pub fn samples(&self) -> (samples: &[i16])
        ensures
            samples@ == self@.samples,
            samples@.len() > 0,
    {
        proof {
            use_type_invariant(self);
        }
        self.samples.as_slice()
    }

    /// The number of frames; never zero.
    pub fn frame_count(&self) -> (frames: usize)
        ensures
            frames == self@.frames(),
            frames > 0,
    {
        proof {
            use_type_invariant(self);
            lemma_whole_frames(self.samples@.len(), self.channels as nat);
        }
        self.samples.len() / (self.channels as usize)
    }

    /// The frame number `index` as it is heard on two speakers, or `None`
    /// where the clip has no such frame.
    pub fn frame_at_index(&self, index: usize) -> (frame: Option<(i16, i16)>)
        ensures
            index < self@.frames() ==> frame == Some(self@.heard(index as int)),
            index >= self@.frames() ==> frame is None,
    {
        proof {
            use_type_invariant(self);
        }
        let length: usize = self.samples.len();
        let channels: usize = self.channels as usize;
        if index >= length / channels {
            return None;
        }
        proof {
            lemma_frame_lies_inside(length as nat, channels as nat, index as nat);
            assert(0 <= index * channels) by (nonlinear_arith);
        }
        let first: usize = index * channels;
        let left: i16 = self.samples[first];
        if channels == 1 {
            Some((left, left))
        } else {
            Some((left, self.samples[first + 1]))
        }
    }

    /// The time the clip takes at normal speed, in whole milliseconds,
    /// rounded down.
    pub fn duration_millis(&self) -> (millis: u128)
        ensures
            millis == self@.duration_millis(),
    {
        let frames: usize = self.frame_count();
        let rate: u32 = self.sample_rate();
        (frames as u128 * 1000) / (rate as u128)
    }
}

/// A positive whole number of frames holds at least one frame.
proof fn lemma_whole_frames(samples: nat, channels: nat)
    requires
        samples > 0,
        channels > 0,
        samples % channels == 0,
    ensures
        samples / channels > 0,
{
    vstd::arithmetic::div_mod::lemma_fundamental_div_mod(samples as int, channels as int);
    if samples / channels == 0 {
        assert(channels * (samples / channels) == 0) by (nonlinear_arith)
            requires
                samples / channels == 0,
        ;
    }
}

/// Every sample of a frame that the clip has lies inside the clip.
proof fn lemma_frame_lies_inside(samples: nat, channels: nat, index: nat)
    requires
        channels > 0,
        samples % channels == 0,
        index < samples / channels,
    ensures
        index * channels + channels <= samples,
{
    vstd::arithmetic::div_mod::lemma_fundamental_div_mod(samples as int, channels as int);
    assert((index + 1) * channels <= (samples / channels) * channels) by (nonlinear_arith)
        requires
            index + 1 <= samples / channels,
    ;
    assert((index + 1) * channels == index * channels + channels) by (nonlinear_arith);
    assert((samples / channels) * channels == channels * (samples / channels))
        by (nonlinear_arith);
}

} // verus!
