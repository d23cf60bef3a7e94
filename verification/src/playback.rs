//! Waiting for a sound to finish: the handle of one playback, the decision
//! taken at each look at the engine, and what a whole wait adds up to.

use vstd::prelude::*;

verus! {

/// The time to sleep between two looks at the engine, in milliseconds.
pub const POLL_INTERVAL: u64 = 100;

/// What the audio engine reports of a sound.
#[derive(Clone, Copy, Debug, PartialEq, Eq, Structural)]
pub enum EngineState {
    /// The sound is playing normally.
    Playing,
    /// The sound is fading out towards a pause.
    Pausing,
    /// The sound is paused.
    Paused,
    /// The sound is paused and due to resume.
    WaitingToResume,
    /// The sound is fading back in after a pause.
    Resuming,
    /// The sound is fading out towards a stop.
    Stopping,
    /// The sound has stopped for good.
    Stopped,
}

/// The state of one playback as its owner sees it.
#[derive(Clone, Copy, Debug, PartialEq, Eq, Structural)]
pub enum PlaybackState {
    /// The sound is being waited for.
    Playing,
    /// The wait is over: the sound ended, left normal playback, or was
    /// cancelled.
    Stopped,
}

/// What to do after a look at the engine.
#[derive(Clone, Copy, Debug, PartialEq, Eq, Structural)]
pub enum WaitStep {
    /// Sleep for so many milliseconds, then look again.
    Sleep { millis: u64 },
    /// Stop waiting.
    Finished,
}

/// The state after a look at the engine. A playback goes on only while it
/// was going on and the engine reports normal playing; once stopped it stays
/// stopped.
pub open spec fn state_after(state: PlaybackState, seen: EngineState) -> PlaybackState {
    if state is Playing && seen is Playing {
        PlaybackState::Playing
    } else {
        PlaybackState::Stopped
    }
}

/// The step that goes with a state: sleep one interval while playing,
/// finish once stopped.
pub open spec fn step_in(state: PlaybackState) -> WaitStep {
    match state {
        PlaybackState::Playing => WaitStep::Sleep { millis: POLL_INTERVAL },
        PlaybackState::Stopped => WaitStep::Finished,
    }
}

/// The milliseconds that a step spends asleep.
pub open spec fn sleep_of(step: WaitStep) -> nat {
    match step {
        WaitStep::Sleep { millis } => millis as nat,
        WaitStep::Finished => 0,
    }
}

/// Where a wait stands after a run of looks at the engine.
pub struct WaitOutcome {
    /// The state of the playback.
    pub state: PlaybackState,
    /// The milliseconds slept so far.
    pub slept: nat,
}

/// The outcome of looking at the engine once for each entry of `seen`, in
/// order, starting from `state` and sleeping as each step says.
pub open spec fn wait_outcome(state: PlaybackState, seen: Seq<EngineState>) -> WaitOutcome
    decreases seen.len(),
{
    if seen.len() == 0 {
        WaitOutcome { state, slept: 0 }
    } else {
        let next = state_after(state, seen[0]);
        let rest = wait_outcome(next, seen.skip(1));
        WaitOutcome { state: rest.state, slept: sleep_of(step_in(next)) + rest.slept }
    }
}

/// Whether `seen` is what a wait observes of a sound that plays for
/// `nominal` milliseconds: the look number `i` falls `i` intervals after the
/// start, and finds the sound playing exactly when that is before its end.
pub open spec fn plays_for(seen: Seq<EngineState>, nominal: int) -> bool {
    forall|i: int|
        0 <= i < seen.len() ==> ((#[trigger] seen[i]) is Playing <==> i * POLL_INTERVAL < nominal)
}

/// The number of whole intervals needed to cover `nominal` milliseconds.
pub open spec fn intervals_to_cover(nominal: nat) -> nat {
    ((nominal + POLL_INTERVAL - 1) / (POLL_INTERVAL as int)) as nat
}

/// One playback in flight. Its owner starts it, looks at the engine through
/// it until told to stop waiting, and may cancel it at any time.
#[derive(Clone, Copy, Debug, PartialEq, Eq, Structural)]
pub struct PlaybackHandle {
    state: PlaybackState,
}

impl View for PlaybackHandle {
    type V = PlaybackState;

    closed spec fn view(&self) -> PlaybackState {
        self.state
    }
}

impl PlaybackHandle {
    /// The handle of a sound that has just been started.
    pub fn start() -> (handle: PlaybackHandle)
        ensures
            handle@ == PlaybackState::Playing,
    {
        PlaybackHandle { state: PlaybackState::Playing }
    }

    /// The state of the playback.
    pub fn state(&self) -> (state: PlaybackState)
        ensures
            state == self@,
    {
        self.state
    }

    /// Takes in what the engine reports and says what to do next.
    ///
    /// While the playback is going on and the engine reports normal playing,
    /// the step is to sleep one [`POLL_INTERVAL`] and look again. On any
    /// other report the playback is stopped and the wait is over, and it
    /// stays so whatever is reported later.
    pub fn observe(&mut self, seen: EngineState) -> (step: WaitStep)
        ensures
            final(self)@ == state_after(old(self)@, seen),
            step == step_in(final(self)@),
    {
        match (self.state, seen) {
            (PlaybackState::Playing, EngineState::Playing) => WaitStep::Sleep {
                millis: POLL_INTERVAL,
            },
            _ => {
                self.state = PlaybackState::Stopped;
                WaitStep::Finished
            },
        }
    }

    /// Gives the playback up: it is stopped from now on.
    pub fn cancel(&mut self)
        ensures
            final(self)@ == PlaybackState::Stopped,
    {
        self.state = PlaybackState::Stopped;
    }
}

/// A stopped playback stays stopped and asks for no more sleep, whatever the
/// engine reports afterwards.
pub proof fn law_stopped_is_final(seen: Seq<EngineState>)
    ensures
        wait_outcome(PlaybackState::Stopped, seen) == (WaitOutcome {
            state: PlaybackState::Stopped,
            slept: 0,
        }),
    decreases seen.len(),
{
    if seen.len() > 0 {
        law_stopped_is_final(seen.skip(1));
    }
}

/// A wait on a sound that plays for `nominal` milliseconds ends with the
/// playback stopped, once the looks reach the end of the sound. It has then
/// slept the fewest whole intervals that cover the sound: no less than
/// `nominal`, and less than one interval more.
pub proof fn law_wait_ends_with_the_sound(nominal: nat, seen: Seq<EngineState>)
    requires
        plays_for(seen, nominal as int),
        seen.len() > intervals_to_cover(nominal),
    ensures
        wait_outcome(PlaybackState::Playing, seen).state == PlaybackState::Stopped,
        wait_outcome(PlaybackState::Playing, seen).slept == intervals_to_cover(nominal)
            * POLL_INTERVAL,
        nominal <= wait_outcome(PlaybackState::Playing, seen).slept < nominal + POLL_INTERVAL,
    decreases seen.len(),
{
    let rest = seen.skip(1);
    if nominal == 0 {
        assert(!(seen[0] is Playing));
        law_stopped_is_final(rest);
    } else {
        assert(seen[0] is Playing);
        let left: nat = if nominal > POLL_INTERVAL {
            (nominal - POLL_INTERVAL) as nat
        } else {
            0
        };
        assert forall|i: int| 0 <= i < rest.len() implies ((#[trigger] rest[i]) is Playing <==> i
            * POLL_INTERVAL < left) by {
            assert(rest[i] == seen[i + 1]);
        }
        law_wait_ends_with_the_sound(left, rest);
    }
}

} // verus!
