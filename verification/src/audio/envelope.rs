use vstd::prelude::*;

verus! {

/// The stage an ADSR envelope is in.
#[derive(Clone, Copy, Debug, PartialEq, Eq, Structural)]
pub enum EnvelopeState {
    Attack,
    Decay,
    Sustain,
    Release,
    Off,
}

/// What the envelope outputs for the current sample, in percent of full
/// level.
#[derive(Clone, Copy, Debug, PartialEq, Eq, Structural)]
pub enum EnvelopeOutput {
    /// Exactly this level.
    Level(u8),
    /// The level part way from `from` to `to`, as far as the time spent in
    /// the stage has gone through the stage's duration.
    Ramp { from: u8, to: u8 },
}

/// One decision of the envelope for the current sample.
#[derive(Clone, Copy, Debug, PartialEq, Eq, Structural)]
pub struct EnvelopeDecision {
    /// The stage after this sample.
    pub state: EnvelopeState,
    /// Whether the time spent in the stage starts again from zero.
    pub restart_timer: bool,
    /// The output for this sample.
    pub output: EnvelopeOutput,
}

/// The stage that follows `state` once its duration has run out; the
/// silent stage stays.
pub open spec fn next_state(state: EnvelopeState) -> EnvelopeState {
    match state {
        EnvelopeState::Attack => EnvelopeState::Decay,
        EnvelopeState::Decay => EnvelopeState::Sustain,
        EnvelopeState::Sustain => EnvelopeState::Release,
        EnvelopeState::Release => EnvelopeState::Off,
        EnvelopeState::Off => EnvelopeState::Off,
    }
}

/// The level in percent at which a stage starts.
pub open spec fn start_level_of(state: EnvelopeState) -> u8 {
    match state {
        EnvelopeState::Attack => 0,
        EnvelopeState::Decay => 100,
        EnvelopeState::Sustain => 60,
        EnvelopeState::Release => 50,
        EnvelopeState::Off => 0,
    }
}

/// The level in percent that a stage reaches at its end.
pub open spec fn end_level_of(state: EnvelopeState) -> u8 {
    match state {
        EnvelopeState::Attack => 100,
        EnvelopeState::Decay => 60,
        EnvelopeState::Sustain => 50,
        EnvelopeState::Release => 0,
        EnvelopeState::Off => 0,
    }
}

/// The decision for one sample: in the silent stage the output is zero;
/// otherwise, once the stage's duration has run out (`stage_over`), the
/// envelope moves to the next stage, restarts its timer and outputs the
/// level the stage ended at, and before that it ramps between the stage's
/// start and end levels.
pub open spec fn decision_of(state: EnvelopeState, stage_over: bool) -> EnvelopeDecision {
    if state == EnvelopeState::Off {
        EnvelopeDecision { state, restart_timer: false, output: EnvelopeOutput::Level(0) }
    } else if stage_over {
        EnvelopeDecision {
            state: next_state(state),
            restart_timer: true,
            output: EnvelopeOutput::Level(end_level_of(state)),
        }
    } else {
        EnvelopeDecision {
            state,
            restart_timer: false,
            output: EnvelopeOutput::Ramp { from: start_level_of(state), to: end_level_of(state) },
        }
    }
}

/// `n` stage changes applied to `state`.
pub open spec fn after_stages(state: EnvelopeState, n: nat) -> EnvelopeState
    decreases n,
{
    if n == 0 {
        state
    } else {
        after_stages(next_state(state), (n - 1) as nat)
    }
}

impl EnvelopeState {
    /// The stage that follows this one once its duration has run out.
    pub fn next(self) -> (s: EnvelopeState)
        ensures
            s == next_state(self),
    {
        match self {
            EnvelopeState::Attack => EnvelopeState::Decay,
            EnvelopeState::Decay => EnvelopeState::Sustain,
            EnvelopeState::Sustain => EnvelopeState::Release,
            EnvelopeState::Release => EnvelopeState::Off,
            EnvelopeState::Off => EnvelopeState::Off,
        }
    }

    /// The level in percent at which this stage starts.
    pub fn start_level(self) -> (l: u8)
        ensures
            l == start_level_of(self),
    {
        match self {
            EnvelopeState::Attack => 0,
            EnvelopeState::Decay => 100,
            EnvelopeState::Sustain => 60,
            EnvelopeState::Release => 50,
            EnvelopeState::Off => 0,
        }
    }

    /// The level in percent that this stage reaches at its end.
    pub fn end_level(self) -> (l: u8)
        ensures
            l == end_level_of(self),
    {
        match self {
            EnvelopeState::Attack => 100,
            EnvelopeState::Decay => 60,
            EnvelopeState::Sustain => 50,
            EnvelopeState::Release => 0,
            EnvelopeState::Off => 0,
        }
    }

    /// Decides the envelope's output and next stage for one sample, given
    /// whether the time spent in the current stage has reached its
    /// duration.
    pub fn decide(self, stage_over: bool) -> (d: EnvelopeDecision)
        ensures
            d == decision_of(self, stage_over),
    {
        match self {
            EnvelopeState::Off => EnvelopeDecision {
                state: self,
                restart_timer: false,
                output: EnvelopeOutput::Level(0),
            },
            _ => {
                if stage_over {
                    EnvelopeDecision {
                        state: self.next(),
                        restart_timer: true,
                        output: EnvelopeOutput::Level(self.end_level()),
                    }
                } else {
                    EnvelopeDecision {
                        state: self,
                        restart_timer: false,
                        output: EnvelopeOutput::Ramp {
                            from: self.start_level(),
                            to: self.end_level(),
                        },
                    }
                }
            },
        }
    }
}

/// The position of a stage in the order attack, decay, sustain, release,
/// silence.
pub open spec fn stage_rank(state: EnvelopeState) -> int {
    match state {
        EnvelopeState::Attack => 0,
        EnvelopeState::Decay => 1,
        EnvelopeState::Sustain => 2,
        EnvelopeState::Release => 3,
        EnvelopeState::Off => 4,
    }
}

/// The stage reached after one decision per entry of `overs`, each entry
/// saying whether the stage's duration had run out at that sample.
pub open spec fn state_after(state: EnvelopeState, overs: Seq<bool>) -> EnvelopeState
    decreases overs.len(),
{
    if overs.len() == 0 {
        state
    } else {
        state_after(decision_of(state, overs[0]).state, overs.drop_first())
    }
}

/// One decision either stays in the stage, ramping between its start and
/// end levels (or, when silent, outputting zero), or moves to the next stage
/// in order, restarting the timer and outputting the level the stage ended
/// at: 100, 60, 50 and 0 percent for attack, decay, sustain and release.
pub proof fn decision_steps_forward(state: EnvelopeState, stage_over: bool)
    ensures
        ({
            let d = decision_of(state, stage_over);
            &&& stage_rank(d.state) == stage_rank(state) || stage_rank(d.state) == stage_rank(state) + 1
            &&& d.state != state ==> {
                &&& d.state == next_state(state)
                &&& d.restart_timer
                &&& d.output == EnvelopeOutput::Level(end_level_of(state))
            }
            &&& (d.state == state && state != EnvelopeState::Off) ==> d.output == (EnvelopeOutput::Ramp {
                from: start_level_of(state),
                to: end_level_of(state),
            })
        }),
        end_level_of(EnvelopeState::Attack) == 100,
        end_level_of(EnvelopeState::Decay) == 60,
        end_level_of(EnvelopeState::Sustain) == 50,
        end_level_of(EnvelopeState::Release) == 0,
{
}

/// Over any run of samples the envelope never returns to an earlier stage,
/// and once silent it stays silent.
pub proof fn envelope_never_goes_back(state: EnvelopeState, overs: Seq<bool>)
    ensures
        stage_rank(state) <= stage_rank(state_after(state, overs)),
        state == EnvelopeState::Off ==> state_after(state, overs) == EnvelopeState::Off,
    decreases overs.len(),
{
    if overs.len() > 0 {
        decision_steps_forward(state, overs[0]);
        envelope_never_goes_back(decision_of(state, overs[0]).state, overs.drop_first());
    }
}

/// The envelope's level does not jump when a stage ends: each stage but the
/// silent one ends at the level the next stage starts from.
pub proof fn stage_levels_are_continuous(state: EnvelopeState)
    requires
        state != EnvelopeState::Off,
    ensures
        end_level_of(state) == start_level_of(next_state(state)),
{
}

/// Once silent, the envelope stays silent: it outputs zero and its stage
/// never changes, whatever the timer says.
pub proof fn silence_is_final(stage_over: bool)
    ensures
        decision_of(EnvelopeState::Off, stage_over) == (EnvelopeDecision {
            state: EnvelopeState::Off,
            restart_timer: false,
            output: EnvelopeOutput::Level(0),
        }),
{
}

/// From any stage, four stage changes reach the silent stage.
pub proof fn four_stages_reach_silence(state: EnvelopeState)
    ensures
        after_stages(state, 4) == EnvelopeState::Off,
{
    reveal_with_fuel(after_stages, 5);
}

/// After the attack peaks at full level, no stage rises: from the decay on,
/// each stage ends no higher than it starts.
pub proof fn level_falls_after_attack(state: EnvelopeState)
    requires
        state != EnvelopeState::Attack,
    ensures
        end_level_of(state) <= start_level_of(state),
        start_level_of(state) <= 100,
{
}

} // verus!
