pub mod gui_post_process;

use vstd::prelude::*;

verus! {

/// A full-screen effect applied after the scene is drawn.
#[derive(Clone, Copy, Debug, PartialEq, Eq, Hash, Structural)]
pub enum Effect {
    Off,
    Noise,
    Pixelate,
    InvertColor,
}

/// Which tool windows are open, which sequencer is selected and which
/// effect is on.
#[derive(Clone, Copy, Debug, PartialEq, Eq, Structural)]
pub struct Settings {
    pub show_sequencers: bool,
    pub show_oscillator_inspector: bool,
    pub show_vfx: bool,
    pub selected: usize,
    pub effect: Effect,
}

impl Settings {
    /// The settings the interface starts with: the sequencer and oscillator
    /// windows open, the effects window closed, the first sequencer
    /// selected and no effect.
    pub fn new() -> (s: Self)
        ensures
            s.show_sequencers,
            s.show_oscillator_inspector,
            !s.show_vfx,
            s.selected == 0,
            s.effect == Effect::Off,
    {
        Settings {
            show_sequencers: true,
            show_oscillator_inspector: true,
            show_vfx: false,
            selected: 0,
            effect: Effect::Off,
        }
    }
}

} // verus!
