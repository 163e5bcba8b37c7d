use vstd::prelude::*;
use crate::error::FrameError;
use crate::frame::{Frame, Raster};
use crate::frame_cache::{loaded, FrameCache};
use crate::frame_provider::FrameProvider;

verus! {

/// What the texture shows: a frame, its number, and the generation of the
/// source that it was decoded from.
pub struct Bound {
    pub index: u64,
    pub generation: u64,
    pub raster: Raster,
}

/// The state of the display texture. `bound` is what it shows, if anything
/// was uploaded yet; `generation` is the token of the source that is active
/// now, which every change of source advances.
pub struct DisplayTextureState {
    pub bound: Option<Bound>,
    pub generation: u64,
}

impl DisplayTextureState {
    /// What the texture shows was bound under the generation of now or
    /// under an earlier one.
    pub open spec fn well_formed(self) -> bool {
        self.bound matches Some(bound) ==> bound.generation <= self.generation
    }

    /// Whether the texture shows frame `desired_index` of the source that
    /// is active now.
    pub open spec fn shows(self, desired_index: u64) -> bool {
        self.bound matches Some(bound) && bound.index == desired_index && bound.generation
            == self.generation
    }

    /// This state with `raster` bound as frame `index` under the generation
    /// of now.
    pub open spec fn rebound(self, index: u64, raster: Raster) -> DisplayTextureState {
        DisplayTextureState {
            bound: Some(Bound { index, generation: self.generation, raster }),
            generation: self.generation,
        }
    }

    /// This state with the generation advanced. What the texture shows
    /// stays, and no longer counts as a frame of the active source.
    pub open spec fn invalidated(self) -> DisplayTextureState {
        DisplayTextureState { bound: self.bound, generation: (self.generation + 1) as u64 }
    }
}

/// What the cache was asked for and came back with, read off the outcome of
/// `ensure_current` and the texture after it.
pub open spec fn fetched(outcome: Result<bool, FrameError>, texture_after: DisplayTextureState) -> Result<
    Raster,
    FrameError,
> {
    match outcome {
        Ok(_) => Ok(texture_after.bound->Some_0.raster),
        Err(error) => Err(error),
    }
}

/// What `ensure_current` does. Where the texture shows the desired frame,
/// nothing happens and the outcome is `Ok(false)`. Else the frame is had
/// from the cache, which asks the source for a frame that it does not hold.
/// A frame is bound to the texture under the generation of now, and the
/// outcome is `Ok(true)`; a failure leaves the texture as it was and is the
/// outcome.
pub open spec fn synced<P: FrameProvider>(
    texture: DisplayTextureState,
    desired_index: u64,
    cache: Map<u64, Raster>,
    source: P,
    outcome: Result<bool, FrameError>,
    texture_after: DisplayTextureState,
    cache_after: Map<u64, Raster>,
    source_after: P,
) -> bool {
    if texture.shows(desired_index) {
        &&& outcome == Ok::<bool, FrameError>(false)
        &&& texture_after == texture
        &&& cache_after == cache
        &&& source_after == source
    } else {
        &&& loaded(
            cache,
            source,
            desired_index,
            fetched(outcome, texture_after),
            cache_after,
            source_after,
        )
        &&& match outcome {
            Ok(uploaded) => uploaded && texture_after == texture.rebound(
                desired_index,
                texture_after.bound->Some_0.raster,
            ),
            Err(_) => texture_after == texture,
        }
    }
}

/// What is bound to the texture.
struct Binding {
    index: u64,
    generation: u64,
    frame: Frame,
}

/// Keeps one display texture in step with the frame that is to be shown, and
/// has a frame uploaded only where the texture does not show it already.
pub struct DisplayTextureSync {
    bound: Option<Binding>,
    generation: u64,
}

impl View for DisplayTextureSync {
    type V = DisplayTextureState;

    closed spec fn view(&self) -> DisplayTextureState {
        DisplayTextureState {
            bound: match self.bound {
                Some(binding) => Some(
                    Bound {
                        index: binding.index,
                        generation: binding.generation,
                        raster: binding.frame@,
                    },
                ),
                None => None,
            },
            generation: self.generation,
        }
    }
}

impl DisplayTextureSync {
    #[verifier::type_invariant]
    spec fn lawful(self) -> bool {
        self@.well_formed()
    }

    /// A texture that shows nothing yet.
    pub fn new() -> (texture: Self)
        ensures
            texture@ == (DisplayTextureState { bound: None, generation: 0 }),
    {
        DisplayTextureSync { bound: None, generation: 0 }
    }

    /// The generation token of the source that is active now.
    pub fn generation(&self) -> (generation: u64)
        ensures
            generation == self@.generation,
            self@.well_formed(),
    {
        proof {
            use_type_invariant(self);
        }
        self.generation
    }

    /// Whether the texture shows frame `desired_index` of the active source.
    pub fn is_current(&self, desired_index: u64) -> (current: bool)
        ensures
            current == self@.shows(desired_index),
    {
        match &self.bound {
            Some(binding) => binding.index == desired_index && binding.generation
                == self.generation,
            None => false,
        }
    }

    /// The number of the frame that the texture shows, if it shows one.
    pub fn bound_index(&self) -> (index: Option<u64>)
        ensures
            index == match self@.bound {
                Some(bound) => Some(bound.index),
                None => None,
            },
    {
        match &self.bound {
            Some(binding) => Some(binding.index),
            None => None,
        }
    }

    /// The frame that the texture shows, if it shows one.
    pub fn frame(&self) -> (frame: Option<&Frame>)
        ensures
            match frame {
                Some(shown) => self@.bound matches Some(bound) && bound.raster == shown@,
                None => self@.bound is None,
            },
    {
        match &self.bound {
            Some(binding) => Some(&binding.frame),
            None => None,
        }
    }

    /// Advances the generation token, as a change of source asks. After it
    /// the texture shows no frame of the active source, whatever its number.
    pub fn invalidate(&mut self)
        requires
            old(self)@.generation < u64::MAX,
        ensures
            final(self)@ == old(self)@.invalidated(),
            final(self)@.well_formed(),
    {
        proof {
            use_type_invariant(&*self);
        }
        self.generation = self.generation + 1;
    }

    /// Makes the texture show frame `desired_index`. `Ok(true)` says that a
    /// frame was bound and is to be uploaded, `Ok(false)` that the texture
    /// showed the frame already. On a failure the texture keeps what it
    /// showed.
    pub fn ensure_current<P: FrameProvider>(
        &mut self,
        desired_index: u64,
        cache: &mut FrameCache,
        source: &mut P,
    ) -> (outcome: Result<bool, FrameError>)
        ensures
            synced(
                old(self)@,
                desired_index,
                old(cache)@,
                *old(source),
                outcome,
                final(self)@,
                final(cache)@,
                *final(source),
            ),
            final(self)@.well_formed(),
    {
        proof {
            use_type_invariant(&*self);
        }
        if self.is_current(desired_index) {
            return Ok(false);
        }
        let frame = cache.get_or_load(desired_index, source)?;
        self.bound = Some(Binding { index: desired_index, generation: self.generation, frame });
        Ok(true)
    }
}

} // verus!
