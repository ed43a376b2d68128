use crate::audio::utils::Note;
use vstd::prelude::*;

verus! {

/// Samples in one beat at `bpm` beats per minute: the whole part of
/// `sample_rate * 60 / bpm`. A tempo of zero gives the largest period (the
/// beat never ends), or zero when the sample rate is zero as well.
pub open spec fn tick_period_of(bpm: u16, sample_rate: u32) -> u32 {
    if bpm == 0 {
        if sample_rate == 0 {
            0
        } else {
            u32::MAX
        }
    } else {
        ((sample_rate * 60) / (bpm as int)) as u32
    }
}

/// Samples at the start of each beat during which the sequencer reports
/// that it is on the beat: a third of the beat period.
pub open spec fn beat_duration_of(bpm: u16, sample_rate: u32) -> u32 {
    if bpm == 0 {
        tick_period_of(bpm, sample_rate)
    } else {
        tick_period_of(bpm, sample_rate) / 3
    }
}

/// What one call of `Sequencer::update` decided for the current sample.
#[derive(Clone, Copy, Debug, PartialEq, Eq, Structural)]
pub struct SequencerStep {
    /// Position in the sequence of the note that sounds now.
    pub step_index: usize,
    /// The note that sounds now.
    pub note: Note,
    /// Whether a new beat began since the previous call, so that the
    /// envelope starts over.
    pub restart_envelope: bool,
}

/// The timing of a step sequencer: it maps the number of samples played so
/// far to a beat and to the note of the sequence that sounds in it.
pub struct Sequencer {
    is_running: bool,
    beat_index: u32,
    prev_beat_index: u32,
    length: u8,
    sequence: Vec<Note>,
    tick_period: u32,
    beat_duration: u32,
    on_beat: bool,
}

impl Sequencer {
    /// Samples per beat.
    pub closed spec fn tick_period_spec(&self) -> u32 {
        self.tick_period
    }

    /// Samples at the start of a beat that count as on the beat.
    pub closed spec fn beat_duration_spec(&self) -> u32 {
        self.beat_duration
    }

    /// Number of steps the sequencer cycles through (the sequence's length
    /// when it was made, kept in a byte).
    pub closed spec fn length_spec(&self) -> u8 {
        self.length
    }

    /// The beat reached at the last update.
    pub closed spec fn beat_index_spec(&self) -> u32 {
        self.beat_index
    }

    /// The beat of the update before the last one that changed it.
    pub closed spec fn prev_beat_index_spec(&self) -> u32 {
        self.prev_beat_index
    }

    /// Whether the last update fell inside the on-beat part of a beat.
    pub closed spec fn on_beat_spec(&self) -> bool {
        self.on_beat
    }

    /// Whether the sequencer is marked as running.
    pub closed spec fn is_running_spec(&self) -> bool {
        self.is_running
    }

    /// The notes of the sequence, in order.
    pub closed spec fn notes(&self) -> Seq<Note> {
        self.sequence@
    }

    /// Whether `update` can run: a non-zero period and step count, and no
    /// more steps than notes.
    pub open spec fn can_update(&self) -> bool {
        &&& self.tick_period_spec() > 0
        &&& self.length_spec() > 0
        &&& self.length_spec() <= self.notes().len()
    }

    /// A stopped sequencer at beat zero that plays `sequence` at `bpm`
    /// beats per minute on a stream of `sample_rate` samples per second.
    /// `channel_count` does not affect the timing.
    pub fn new(bpm: u16, sample_rate: u32, channel_count: u32, sequence: Vec<Note>) -> (s: Self)
        requires
            sequence.len() > 0,
            sample_rate * 60 <= u32::MAX,
        ensures
            s.notes() == sequence@,
            !s.is_running_spec(),
            s.tick_period_spec() == tick_period_of(bpm, sample_rate),
            s.beat_duration_spec() == beat_duration_of(bpm, sample_rate),
            s.length_spec() == sequence.len() % 256,
            s.beat_index_spec() == 0,
            s.prev_beat_index_spec() == 0,
            !s.on_beat_spec(),
    {
        let samples_per_minute: u32 = sample_rate * 60;
        let tick_period: u32 = if bpm == 0 {
            if sample_rate == 0 {
                0
            } else {
                u32::MAX
            }
        } else {
            samples_per_minute / (bpm as u32)
        };
        let beat_duration: u32 = if bpm == 0 {
            tick_period
        } else {
            tick_period / 3
        };
        let length: u8 = (sequence.len() % 256) as u8;
        Self {
            is_running: false,
            beat_index: 0,
            prev_beat_index: 0,
            length,
            sequence,
            tick_period,
            beat_duration,
            on_beat: false,
        }
    }

    /// Moves the sequencer to the moment `elapsed_samples` samples after
    /// the start: the beat is the whole number of periods elapsed, the step
    /// is that beat counted round the sequence, and the envelope restarts
    /// when the beat differs from the one last seen.
    pub fn update(&mut self, elapsed_samples: u32) -> (step: SequencerStep)
        requires
            old(self).can_update(),
        ensures
            final(self).beat_index_spec() == elapsed_samples / old(self).tick_period_spec(),
            final(self).on_beat_spec() == (elapsed_samples % old(self).tick_period_spec() > 0
                && elapsed_samples % old(self).tick_period_spec()
                < old(self).beat_duration_spec()),
            step.step_index == final(self).beat_index_spec() % (old(self).length_spec() as u32),
            step.step_index < old(self).length_spec(),
            step.note == old(self).notes()[step.step_index as int],
            step.restart_envelope == (old(self).prev_beat_index_spec()
                != final(self).beat_index_spec()),
            final(self).prev_beat_index_spec() == final(self).beat_index_spec(),
            final(self).notes() == old(self).notes(),
            final(self).is_running_spec() == old(self).is_running_spec(),
            final(self).tick_period_spec() == old(self).tick_period_spec(),
            final(self).beat_duration_spec() == old(self).beat_duration_spec(),
            final(self).length_spec() == old(self).length_spec(),
            final(self).can_update(),
    {
        let remainder: u32 = elapsed_samples % self.tick_period;
        self.on_beat = remainder > 0 && remainder < self.beat_duration;
        self.beat_index = elapsed_samples / self.tick_period;
        let step_index: usize = (self.beat_index % (self.length as u32)) as usize;
        let note: Note = self.sequence[step_index];
        let restart_envelope: bool = self.prev_beat_index != self.beat_index;
        if restart_envelope {
            self.prev_beat_index = self.beat_index;
        }
        SequencerStep { step_index, note, restart_envelope }
    }

    /// Replaces the note at `index` of the sequence, leaving the timing as
    /// it was.
    pub fn set_note(&mut self, index: usize, note: Note)
        requires
            index < old(self).notes().len(),
        ensures
            final(self).notes() == old(self).notes().update(index as int, note),
            final(self).is_running_spec() == old(self).is_running_spec(),
            final(self).tick_period_spec() == old(self).tick_period_spec(),
            final(self).beat_duration_spec() == old(self).beat_duration_spec(),
            final(self).length_spec() == old(self).length_spec(),
            final(self).beat_index_spec() == old(self).beat_index_spec(),
            final(self).prev_beat_index_spec() == old(self).prev_beat_index_spec(),
            final(self).on_beat_spec() == old(self).on_beat_spec(),
    {
        self.sequence.set(index, note);
    }

    /// Whether the sequencer is marked as running.
    pub fn is_running(&self) -> (b: bool)
        ensures
            b == self.is_running_spec(),
    {
        self.is_running
    }

    /// Marks the sequencer as running or stopped, leaving notes and timing
    /// as they were.
    pub fn set_running(&mut self, running: bool)
        ensures
            final(self).is_running_spec() == running,
            final(self).notes() == old(self).notes(),
            final(self).tick_period_spec() == old(self).tick_period_spec(),
            final(self).beat_duration_spec() == old(self).beat_duration_spec(),
            final(self).length_spec() == old(self).length_spec(),
            final(self).beat_index_spec() == old(self).beat_index_spec(),
            final(self).prev_beat_index_spec() == old(self).prev_beat_index_spec(),
            final(self).on_beat_spec() == old(self).on_beat_spec(),
    {
        self.is_running = running;
    }

    /// The notes of the sequence, in order.
    pub fn sequence(&self) -> (s: &Vec<Note>)
        ensures
            s@ == self.notes(),
    {
        &self.sequence
    }

    /// The number of notes in the sequence.
    pub fn note_count(&self) -> (n: usize)
        ensures
            n == self.notes().len(),
    {
        self.sequence.len()
    }

    /// The note at `index` of the sequence.
    pub fn note(&self, index: usize) -> (n: Note)
        requires
            index < self.notes().len(),
        ensures
            n == self.notes()[index as int],
    {
        self.sequence[index]
    }

    /// The beat reached at the last update: how many beats have been played.
    pub fn beat_index(&self) -> (b: u32)
        ensures
            b == self.beat_index_spec(),
    {
        self.beat_index
    }

    /// Whether the last update fell in the first third of a beat.
    pub fn on_beat(&self) -> (b: bool)
        ensures
            b == self.on_beat_spec(),
    {
        self.on_beat
    }
}

/// Time only moves the sequencer forward: a later sample never falls in an
/// earlier beat.
pub proof fn beats_never_go_back(tick_period: u32, earlier: u32, later: u32)
    requires
        tick_period > 0,
        earlier <= later,
    ensures
        earlier / tick_period <= later / tick_period,
{
    vstd::arithmetic::div_mod::lemma_div_is_ordered(earlier as int, later as int, tick_period as int);
}

/// The sequencer walks its steps in order: one beat after step `s` comes
/// step `s + 1`, wrapping to the first step after the last.
pub proof fn steps_follow_beats(beat: u32, length: u8)
    requires
        length > 0,
        beat < u32::MAX,
    ensures
        (beat as int + 1) % (length as int) == if (beat as int) % (length as int) + 1 == length as int {
            0
        } else {
            (beat as int) % (length as int) + 1
        },
{
    let n: int = length as int;
    let b: int = beat as int;
    vstd::arithmetic::div_mod::lemma_fundamental_div_mod(b, n);
    let q: int = b / n;
    let r: int = b % n;
    if r + 1 == n {
        assert(b + 1 == (q + 1) * n) by (nonlinear_arith)
            requires
                b == n * q + r,
                r + 1 == n,
        ;
        vstd::arithmetic::div_mod::lemma_mod_multiples_basic(q + 1, n);
    } else {
        assert(b + 1 == q * n + (r + 1)) by (nonlinear_arith)
            requires
                b == n * q + r,
        ;
        vstd::arithmetic::div_mod::lemma_mod_multiples_vanish(q, r + 1, n);
        vstd::arithmetic::div_mod::lemma_small_mod((r + 1) as nat, n as nat);
    }
}

/// At a non-zero tempo a beat lasts the whole number of samples in
/// `sample_rate * 60 / bpm`, and its on-beat part is the whole part of a
/// third of that beat: a sample `r` samples into a beat falls in the on-beat
/// part exactly when `3 * (r + 1)` samples still fit in the beat.
pub proof fn on_beat_part_is_first_third(bpm: u16, sample_rate: u32, r: u32)
    requires
        bpm > 0,
        sample_rate * 60 <= u32::MAX,
    ensures
        tick_period_of(bpm, sample_rate) * bpm <= sample_rate * 60,
        sample_rate * 60 < (tick_period_of(bpm, sample_rate) + 1) * bpm,
        beat_duration_of(bpm, sample_rate) * 3 <= tick_period_of(bpm, sample_rate),
        tick_period_of(bpm, sample_rate) < beat_duration_of(bpm, sample_rate) * 3 + 3,
        (r < beat_duration_of(bpm, sample_rate)) == (3 * (r + 1) <= tick_period_of(
            bpm,
            sample_rate,
        )),
{
    let x: int = sample_rate * 60;
    let b: int = bpm as int;
    vstd::arithmetic::div_mod::lemma_fundamental_div_mod(x, b);
    vstd::arithmetic::div_mod::lemma_mod_bound(x, b);
    vstd::arithmetic::div_mod::lemma_div_pos_is_pos(x, b);
    vstd::arithmetic::div_mod::lemma_div_is_ordered_by_denominator(x, 1, b);
    let q: int = x / b;
    assert(q <= x);
    assert(tick_period_of(bpm, sample_rate) == q);
    assert(q * b <= x < (q + 1) * b) by (nonlinear_arith)
        requires
            x == b * q + x % b,
            0 <= x % b < b,
    ;
    let t: int = q;
    vstd::arithmetic::div_mod::lemma_fundamental_div_mod(t, 3);
    vstd::arithmetic::div_mod::lemma_mod_bound(t, 3);
    assert(beat_duration_of(bpm, sample_rate) == t / 3);
}

} // verus!
