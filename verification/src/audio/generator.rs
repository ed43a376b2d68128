use vstd::prelude::*;

verus! {

/// The wave shape a generator's oscillator produces.
#[derive(Clone, Copy, Debug, PartialEq, Eq, Structural)]
pub enum WaveType {
    Sine,
    Sawtooth,
    Square,
    Triangle,
}

/// The noise a generator mixes into its signal.
#[derive(Clone, Copy, Debug, PartialEq, Eq, Structural)]
pub enum NoiseType {
    Off,
    Random,
    White,
}

/// A control message sent to a running generator. (A change of frequency
/// carries a float and is applied by the caller.)
#[derive(Clone, Copy, Debug, PartialEq, Eq, Structural)]
pub enum Input {
    Start,
    Stop,
    ChangeOscillator(u8),
    ChangeNoise(u8),
}

/// The discrete settings of a generator that its control messages change.
#[derive(Clone, Copy, Debug, PartialEq, Eq, Structural)]
pub struct GeneratorControls {
    pub is_running: bool,
    pub oscillator_type: WaveType,
    pub noise_type: NoiseType,
}

/// The wave shape an oscillator code selects: 0 sine, 1 sawtooth, 2 square,
/// 3 triangle; other codes select nothing.
pub open spec fn wave_of_code(code: u8) -> Option<WaveType> {
    if code == 0 {
        Some(WaveType::Sine)
    } else if code == 1 {
        Some(WaveType::Sawtooth)
    } else if code == 2 {
        Some(WaveType::Square)
    } else if code == 3 {
        Some(WaveType::Triangle)
    } else {
        Option::None
    }
}

/// The noise a noise code selects: 0 none, 1 random, 2 white; other codes
/// select nothing.
pub open spec fn noise_of_code(code: u8) -> Option<NoiseType> {
    if code == 0 {
        Some(NoiseType::Off)
    } else if code == 1 {
        Some(NoiseType::Random)
    } else if code == 2 {
        Some(NoiseType::White)
    } else {
        Option::None
    }
}

/// The settings after `input`: start and stop set the running flag, and a
/// code that selects a wave or noise replaces the current one (an unknown
/// code changes nothing).
pub open spec fn controls_after(c: GeneratorControls, input: Input) -> GeneratorControls {
    match input {
        Input::Start => GeneratorControls { is_running: true, ..c },
        Input::Stop => GeneratorControls { is_running: false, ..c },
        Input::ChangeOscillator(code) => match wave_of_code(code) {
            Some(w) => GeneratorControls { oscillator_type: w, ..c },
            Option::None => c,
        },
        Input::ChangeNoise(code) => match noise_of_code(code) {
            Some(n) => GeneratorControls { noise_type: n, ..c },
            Option::None => c,
        },
    }
}

/// The wave shape an oscillator code selects, if any.
pub fn wave_type_from_code(code: u8) -> (w: Option<WaveType>)
    ensures
        w == wave_of_code(code),
{
    if code == 0 {
        Some(WaveType::Sine)
    } else if code == 1 {
        Some(WaveType::Sawtooth)
    } else if code == 2 {
        Some(WaveType::Square)
    } else if code == 3 {
        Some(WaveType::Triangle)
    } else {
        Option::None
    }
}

/// The noise a noise code selects, if any.
pub fn noise_type_from_code(code: u8) -> (n: Option<NoiseType>)
    ensures
        n == noise_of_code(code),
{
    if code == 0 {
        Some(NoiseType::Off)
    } else if code == 1 {
        Some(NoiseType::Random)
    } else if code == 2 {
        Some(NoiseType::White)
    } else {
        Option::None
    }
}

impl GeneratorControls {
    /// The settings a new generator starts with: running, sawtooth, no
    /// noise.
    pub fn new() -> (c: Self)
        ensures
            c.is_running,
            c.oscillator_type == WaveType::Sawtooth,
            c.noise_type == NoiseType::Off,
    {
        GeneratorControls {
            is_running: true,
            oscillator_type: WaveType::Sawtooth,
            noise_type: NoiseType::Off,
        }
    }

    /// Applies one control message.
    pub fn apply(&mut self, input: Input)
        ensures
            *final(self) == controls_after(*old(self), input),
    {
        match input {
            Input::Start => self.is_running = true,
            Input::Stop => self.is_running = false,
            Input::ChangeOscillator(osc) => {
                if let Some(wave) = wave_type_from_code(osc) {
                    self.oscillator_type = wave;
                }
            },
            Input::ChangeNoise(noise) => {
                if let Some(kind) = noise_type_from_code(noise) {
                    self.noise_type = kind;
                }
            },
        }
    }
}

/// A control message that names no wave or noise leaves the settings as
/// they were.
pub proof fn unknown_codes_change_nothing(c: GeneratorControls, code: u8)
    requires
        code > 3,
    ensures
        controls_after(c, Input::ChangeOscillator(code)) == c,
        controls_after(c, Input::ChangeNoise(code)) == c,
{
}

/// Noise codes 0, 1 and 2 select the three kinds of noise in the order
/// they are declared (none, random, white), no two codes the same kind,
/// and no other code selects any.
pub proof fn noise_codes_follow_declaration_order(a: u8, b: u8)
    ensures
        noise_of_code(0) == Some(NoiseType::Off),
        noise_of_code(1) == Some(NoiseType::Random),
        noise_of_code(2) == Some(NoiseType::White),
        noise_of_code(a) is Some <==> a <= 2,
        noise_of_code(a) is Some && noise_of_code(a) == noise_of_code(b) ==> a == b,
{
}

/// Oscillator codes 0 to 3 select the four wave shapes in the order they
/// are declared (sine, sawtooth, square, triangle), no two codes the same
/// shape, and no other code selects any.
pub proof fn wave_codes_follow_declaration_order(a: u8, b: u8)
    ensures
        wave_of_code(0) == Some(WaveType::Sine),
        wave_of_code(1) == Some(WaveType::Sawtooth),
        wave_of_code(2) == Some(WaveType::Square),
        wave_of_code(3) == Some(WaveType::Triangle),
        wave_of_code(a) is Some <==> a <= 3,
        wave_of_code(a) is Some && wave_of_code(a) == wave_of_code(b) ==> a == b,
{
}

/// A noise message with code 0, 1 or 2 sets the noise to none, random or
/// white, whatever it was before, and touches nothing else.
pub proof fn noise_message_sets_kind(c: GeneratorControls, code: u8)
    requires
        code <= 2,
    ensures
        controls_after(c, Input::ChangeNoise(code)).noise_type == (if code == 0 {
            NoiseType::Off
        } else if code == 1 {
            NoiseType::Random
        } else {
            NoiseType::White
        }),
        controls_after(c, Input::ChangeNoise(code)).is_running == c.is_running,
        controls_after(c, Input::ChangeNoise(code)).oscillator_type == c.oscillator_type,
{
}

} // verus!
