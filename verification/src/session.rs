use vstd::prelude::*;
use crate::composition::CompositionProperties;
use crate::display_texture::{fetched, synced, DisplayTextureState, DisplayTextureSync};
use crate::error::FrameError;
use crate::frame::{Frame, Raster};
use crate::frame_cache::FrameCache;
use crate::frame_provider::{outcome_view, FrameProvider};

verus! {

/// What a session is, as mathematics.
pub struct SessionState<P> {
    /// The active source.
    pub source: P,
    /// The frames decoded from it so far.
    pub cache: Map<u64, Raster>,
    /// The number of the frame that is to be shown.
    pub desired: u64,
    /// What the display texture shows.
    pub texture: DisplayTextureState,
    /// The nominal canvas.
    pub composition: CompositionProperties,
}

/// The canvas after the first frame of a new source was asked for: it takes
/// the dimensions of that frame, or stays as it was where there is none.
pub open spec fn recomposed(
    composition: CompositionProperties,
    probe: Result<Raster, FrameError>,
) -> CompositionProperties {
    match probe {
        Ok(raster) => CompositionProperties {
            width: raster.width as u64,
            height: raster.height as u64,
            framerate: composition.framerate,
        },
        Err(_) => composition,
    }
}

/// What the outcome of a change of source says of the first frame of the
/// new source.
pub open spec fn probe_reported(
    probe: Result<Raster, FrameError>,
    outcome: Result<(), FrameError>,
) -> bool {
    match probe {
        Ok(_) => outcome is Ok,
        Err(error) => outcome == Err::<(), FrameError>(error),
    }
}

/// Whether a change to `new_source` may have asked it for its first frame
/// with the result `probe`.
pub open spec fn probed<P: FrameProvider>(
    before: SessionState<P>,
    new_source: P,
    probe: Result<Raster, FrameError>,
    outcome: Result<(), FrameError>,
    after: SessionState<P>,
) -> bool {
    &&& new_source.answers(0, probe, after.source)
    &&& probe_reported(probe, outcome)
    &&& after.composition == recomposed(before.composition, probe)
}

/// What `set_frame_provider` does. The new source is adopted, frame 0 is
/// the one to be shown, the cache is empty and the generation has advanced.
/// The new source was asked once for its first frame: the canvas has the
/// dimensions of that frame, or, where there is none, stays as it was and
/// the failure is the outcome.
pub open spec fn switched<P: FrameProvider>(
    before: SessionState<P>,
    new_source: P,
    outcome: Result<(), FrameError>,
    after: SessionState<P>,
) -> bool {
    &&& after.desired == 0
    &&& after.cache == Map::<u64, Raster>::empty()
    &&& after.texture == before.texture.invalidated()
    &&& exists|probe: Result<Raster, FrameError>|
        #[trigger] probed(before, new_source, probe, outcome, after)
}

/// What `ensure_current` does: the texture is brought in step with the
/// frame that is to be shown, through the cache and the active source, and
/// nothing else changes.
pub open spec fn ensured<P: FrameProvider>(
    before: SessionState<P>,
    outcome: Result<bool, FrameError>,
    after: SessionState<P>,
) -> bool {
    &&& synced(
        before.texture,
        before.desired,
        before.cache,
        before.source,
        outcome,
        after.texture,
        after.cache,
        after.source,
    )
    &&& after.desired == before.desired
    &&& after.composition == before.composition
}

/// One working session: the active source of frames, the frames decoded
/// from it, the frame that is to be shown, the display texture and the
/// nominal canvas.
pub struct Session<P: FrameProvider> {
    frame_provider: P,
    cached_frames: FrameCache,
    current_frame: u64,
    display_texture: DisplayTextureSync,
    composition_properties: CompositionProperties,
}

impl<P: FrameProvider> View for Session<P> {
    type V = SessionState<P>;

    closed spec fn view(&self) -> SessionState<P> {
        SessionState {
            source: self.frame_provider,
            cache: self.cached_frames@,
            desired: self.current_frame,
            texture: self.display_texture@,
            composition: self.composition_properties,
        }
    }
}

impl<P: FrameProvider> Session<P> {
    /// A session over `frame_provider`: nothing is decoded, frame 0 is the
    /// one to be shown, the texture shows nothing and the canvas is empty.
    pub fn new(frame_provider: P) -> (session: Self)
        ensures
            session@ == (SessionState {
                source: frame_provider,
                cache: Map::<u64, Raster>::empty(),
                desired: 0,
                texture: DisplayTextureState { bound: None, generation: 0 },
                composition: CompositionProperties { width: 0, height: 0, framerate: 60 },
            }),
    {
        Session {
            frame_provider,
            cached_frames: FrameCache::new(),
            current_frame: 0,
            display_texture: DisplayTextureSync::new(),
            composition_properties: CompositionProperties::default(),
        }
    }

    /// The number of the frame that is to be shown.
    pub fn current_frame(&self) -> (index: u64)
        ensures
            index == self@.desired,
    {
        self.current_frame
    }

    /// The nominal canvas.
    pub fn composition_properties(&self) -> (composition: CompositionProperties)
        ensures
            composition == self@.composition,
    {
        self.composition_properties
    }

    /// The generation token of the active source.
    pub fn generation(&self) -> (generation: u64)
        ensures
            generation == self@.texture.generation,
            self@.texture.well_formed(),
    {
        self.display_texture.generation()
    }

    /// The active source.
    pub fn frame_provider(&self) -> (source: &P)
        ensures
            *source == self@.source,
    {
        &self.frame_provider
    }

    /// The frames decoded from the active source so far.
    pub fn cached_frames(&self) -> (cache: &FrameCache)
        ensures
            cache@ == self@.cache,
    {
        &self.cached_frames
    }

    /// The frame that the display texture shows, if it shows one.
    pub fn displayed_frame(&self) -> (frame: Option<&Frame>)
        ensures
            match frame {
                Some(shown) => self@.texture.bound matches Some(bound) && bound.raster == shown@,
                None => self@.texture.bound is None,
            },
    {
        self.display_texture.frame()
    }

    /// The number of the frame that the display texture shows, if it shows
    /// one.
    pub fn displayed_index(&self) -> (index: Option<u64>)
        ensures
            index == match self@.texture.bound {
                Some(bound) => Some(bound.index),
                None => None,
            },
    {
        self.display_texture.bound_index()
    }

    /// Makes frame `index` the one to be shown.
    pub fn seek(&mut self, index: u64)
        ensures
            final(self)@ == (SessionState { desired: index, ..old(self)@ }),
    {
        self.current_frame = index;
    }

    /// Makes the frame before the current one the one to be shown; the first
    /// frame has none before it and stays.
    pub fn previous_frame(&mut self)
        ensures
            final(self)@ == (SessionState {
                desired: if old(self)@.desired == 0 {
                    0
                } else {
                    (old(self)@.desired - 1) as u64
                },
                ..old(self)@
            }),
    {
        self.current_frame = self.current_frame.saturating_sub(1);
    }

    /// Makes the frame after the current one the one to be shown; the
    /// greatest frame number has none after it and stays.
    pub fn next_frame(&mut self)
        ensures
            final(self)@ == (SessionState {
                desired: if old(self)@.desired == u64::MAX {
                    u64::MAX
                } else {
                    (old(self)@.desired + 1) as u64
                },
                ..old(self)@
            }),
    {
        self.current_frame = self.current_frame.saturating_add(1);
    }

    /// Replaces the active source by `new_frame_provider`. Frame 0 becomes
    /// the one to be shown, the cache is cleared and the generation
    /// advances, so that the texture no longer counts as showing a frame of
    /// the active source. The new source is then asked once for its first
    /// frame, whose dimensions become those of the canvas. Where that
    /// fails, the change of source stands, the canvas stays as it was, and
    /// the failure is handed back.
    pub fn set_frame_provider(&mut self, new_frame_provider: P) -> (outcome: Result<
        (),
        FrameError,
    >)
        requires
            old(self)@.texture.generation < u64::MAX,
        ensures
            switched(old(self)@, new_frame_provider, outcome, final(self)@),
            final(self)@.texture.well_formed(),
    {
        self.frame_provider = new_frame_provider;
        self.current_frame = 0;
        self.cached_frames.clear();
        self.display_texture.invalidate();
        let first = self.frame_provider.get_frame(0);
        let outcome = match &first {
            Ok(frame) => {
                self.composition_properties.width = frame.width() as u64;
                self.composition_properties.height = frame.height() as u64;
                Ok(())
            },
            Err(error) => Err(*error),
        };
        assert(probed(old(self)@, new_frame_provider, outcome_view(first), outcome, self@));
        outcome
    }

    /// Brings the display texture in step with the frame that is to be
    /// shown. `Ok(true)` says that a frame was bound and is to be uploaded:
    /// `displayed_frame` hands it out. `Ok(false)` says that the texture
    /// showed the frame already. On a failure the texture keeps what it
    /// showed and nothing is cached.
    pub fn ensure_current(&mut self) -> (outcome: Result<bool, FrameError>)
        ensures
            ensured(old(self)@, outcome, final(self)@),
            final(self)@.texture.well_formed(),
    {
        self.display_texture.ensure_current(
            self.current_frame,
            &mut self.cached_frames,
            &mut self.frame_provider,
        )
    }
}

/// A change of source empties the cache, makes frame 0 the one to be shown
/// and gives a generation unlike the one before. The next `ensure_current`
/// therefore finds the texture out of step, whatever it showed, and asks the
/// new source for frame 0: what it binds is what the new source answered.
pub proof fn lemma_switch_invalidates<P: FrameProvider>(
    before: SessionState<P>,
    new_source: P,
    switch_outcome: Result<(), FrameError>,
    between: SessionState<P>,
    outcome: Result<bool, FrameError>,
    after: SessionState<P>,
)
    requires
        before.texture.well_formed(),
        before.texture.generation < u64::MAX,
        switched(before, new_source, switch_outcome, between),
        ensured(between, outcome, after),
    ensures
        between.cache == Map::<u64, Raster>::empty(),
        between.desired == 0,
        between.texture.generation != before.texture.generation,
        !between.texture.shows(0),
        outcome != Ok::<bool, FrameError>(false),
        between.source.answers(0, fetched(outcome, after.texture), after.source),
        outcome is Ok ==> after.texture.shows(0),
        outcome is Err ==> after.texture == between.texture && after.cache == between.cache,
{
}

/// Once `ensure_current` has succeeded, a second call with the same frame
/// to be shown does nothing: the texture is in step, and neither the cache
/// nor the source is touched.
pub proof fn lemma_ensure_current_is_idempotent<P: FrameProvider>(
    before: SessionState<P>,
    first: Result<bool, FrameError>,
    between: SessionState<P>,
    second: Result<bool, FrameError>,
    after: SessionState<P>,
)
    requires
        ensured(before, first, between),
        ensured(between, second, after),
        first is Ok,
    ensures
        between.texture.shows(between.desired),
        second == Ok::<bool, FrameError>(false),
        after == between,
{
}

/// A failure of `ensure_current` leaves the texture and the cache as they
/// were.
pub proof fn lemma_failure_keeps_texture_and_cache<P: FrameProvider>(
    before: SessionState<P>,
    outcome: Result<bool, FrameError>,
    after: SessionState<P>,
)
    requires
        ensured(before, outcome, after),
        outcome is Err,
    ensures
        after.texture == before.texture,
        after.cache == before.cache,
        after.desired == before.desired,
        after.composition == before.composition,
{
}

} // verus!
