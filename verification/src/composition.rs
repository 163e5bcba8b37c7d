use vstd::prelude::*;

verus! {

/// The nominal canvas on which frames and strokes are composed.
#[derive(Clone, Copy, Debug, PartialEq, Eq, Structural)]
pub struct CompositionProperties {
    pub width: u64,
    pub height: u64,
    pub framerate: u32,
}

impl Default for CompositionProperties {
    /// An empty canvas at sixty frames per second.
    fn default() -> (properties: Self)
        ensures
            properties == (CompositionProperties { width: 0, height: 0, framerate: 60 }),
    {
        CompositionProperties { width: 0, height: 0, framerate: 60 }
    }
}

} // verus!
