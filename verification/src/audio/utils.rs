use vstd::prelude::*;

verus! {

/// A key of the chromatic scale, or a rest.
#[derive(Clone, Copy, Debug, PartialEq, Eq, Structural)]
pub enum Key {
    C,
    Cs,
    D,
    Ds,
    E,
    F,
    Fs,
    G,
    Gs,
    A,
    As,
    B,
    Rest,
}

/// The octave a note is played in, lowest first.
#[derive(Clone, Copy, Debug, PartialEq, Eq, Structural)]
pub enum Octave {
    First,
    Second,
    Third,
    Fourth,
    Fifth,
}

/// One step of a sequence: a key played in an octave.
#[derive(Clone, Copy, Debug, PartialEq, Eq, Structural)]
pub struct Note {
    pub octave: Octave,
    pub key: Key,
}

/// How many octaves `octave` lies above the first one.
pub open spec fn octave_shift(octave: Octave) -> nat {
    match octave {
        Octave::First => 0,
        Octave::Second => 1,
        Octave::Third => 2,
        Octave::Fourth => 3,
        Octave::Fifth => 4,
    }
}

/// Two to the power `n`.
pub open spec fn pow2(n: nat) -> nat
    decreases n,
{
    if n == 0 {
        1
    } else {
        2 * pow2((n - 1) as nat)
    }
}

impl Note {
    /// The factor by which the note's octave multiplies the frequency of its
    /// key in the first octave: two to the power of the octave's shift.
    pub fn octave_multiplier(&self) -> (m: u32)
        ensures
            m == pow2(octave_shift(self.octave)),
    {
        reveal_with_fuel(pow2, 5);
        match self.octave {
            Octave::First => 1,
            Octave::Second => 2,
            Octave::Third => 4,
            Octave::Fourth => 8,
            Octave::Fifth => 16,
        }
    }

    /// Whether the step is a rest (no key is sounded).
    pub fn is_rest(&self) -> (r: bool)
        ensures
            r == (self.key == Key::Rest),
    {
        match self.key {
            Key::Rest => true,
            _ => false,
        }
    }
}

} // verus!
