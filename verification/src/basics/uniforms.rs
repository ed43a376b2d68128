use vstd::prelude::*;

verus! {

/// The uniform block of the texture material, which needs no data of its
/// own.
#[derive(Clone, Copy, Debug, PartialEq, Eq, Structural)]
pub struct TextureUniform {}

impl TextureUniform {
    /// The (empty) texture uniform block.
    pub fn new() -> (u: Self)
        ensures
            u == (TextureUniform {}),
    {
        TextureUniform {}
    }
}

} // verus!
