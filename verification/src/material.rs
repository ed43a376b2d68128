use vstd::prelude::*;

verus! {

/// The kinds of material a scene object can be drawn with.
#[derive(Clone, Copy, Debug, PartialEq, Eq, Hash, Structural)]
pub enum Material {
    Debug,
    DiffuseColor,
    Equalizer,
    UnlitColor,
    Wave,
    Texture,
    DiffuseTexture,
}

} // verus!
