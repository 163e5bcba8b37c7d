use std::collections::HashMap;
use vstd::prelude::*;
use vstd::std_specs::hash::group_hash_axioms;
use crate::error::FrameError;
use crate::frame::{Frame, Raster};
use crate::frame_provider::{outcome_view, FrameProvider};

verus! {

broadcast use group_hash_axioms;

/// The cache after the outcome of a decode of frame `index` was handed to
/// it: a frame is stored under its index, in place of what was there; a
/// failure is not stored.
pub open spec fn stored(
    cache: Map<u64, Raster>,
    index: u64,
    outcome: Result<Raster, FrameError>,
) -> Map<u64, Raster> {
    match outcome {
        Ok(raster) => cache.insert(index, raster),
        Err(_) => cache,
    }
}

/// What `get_or_load` does. A frame that the cache holds is handed out, and
/// neither the cache nor the source changes. For any other the source is
/// asked once, and what it answers is stored in the cache and handed on.
pub open spec fn loaded<P: FrameProvider>(
    cache: Map<u64, Raster>,
    source: P,
    index: u64,
    outcome: Result<Raster, FrameError>,
    cache_after: Map<u64, Raster>,
    source_after: P,
) -> bool {
    if cache.contains_key(index) {
        &&& outcome == Ok::<Raster, FrameError>(cache[index])
        &&& cache_after == cache
        &&& source_after == source
    } else {
        &&& source.answers(index, outcome, source_after)
        &&& cache_after == stored(cache, index, outcome)
    }
}

/// The frames decoded so far, by frame number. Nothing leaves the cache
/// before it is cleared.
pub struct FrameCache {
    frames: HashMap<u64, Frame>,
}

impl View for FrameCache {
    type V = Map<u64, Raster>;

    closed spec fn view(&self) -> Map<u64, Raster> {
        self.frames@.map_values(|frame: Frame| frame@)
    }
}

impl FrameCache {
    /// An empty cache.
    pub fn new() -> (cache: Self)
        ensures
            cache@ == Map::<u64, Raster>::empty(),
    {
        let cache = FrameCache { frames: HashMap::new() };
        assert(cache@ =~= Map::<u64, Raster>::empty());
        cache
    }

    /// The number of frames held.
    pub fn len(&self) -> (count: usize)
        ensures
            count == self@.len(),
            self@.dom().finite(),
    {
        assert(self@.dom() =~= self.frames@.dom());
        self.frames.len()
    }

    /// Whether frame `index` is held.
    pub fn contains(&self, index: u64) -> (held: bool)
        ensures
            held == self@.contains_key(index),
    {
        self.frames.contains_key(&index)
    }

    /// The frame held for `index`, if there is one.
    pub fn get(&self, index: u64) -> (frame: Option<&Frame>)
        ensures
            match frame {
                Some(found) => self@.contains_key(index) && found@ == self@[index],
                None => !self@.contains_key(index),
            },
    {
        self.frames.get(&index)
    }

    /// Takes the outcome of a decode of frame `index`: stores a frame, in
    /// place of one already held for that index, and hands the outcome on.
    pub fn store(&mut self, index: u64, outcome: Result<Frame, FrameError>) -> (handed: Result<
        Frame,
        FrameError,
    >)
        ensures
            outcome_view(handed) == outcome_view(outcome),
            final(self)@ == stored(old(self)@, index, outcome_view(outcome)),
    {
        match outcome {
            Ok(frame) => {
                let copy = frame.clone();
                self.frames.insert(index, frame);
                assert(self@ =~= old(self)@.insert(index, copy@));
                Ok(copy)
            },
            Err(error) => Err(error),
        }
    }

    /// Hands out frame `index`: the one held, or else the one that `source`
    /// decodes now, which is kept for the next request. A failure to decode
    /// is handed on as it is, and nothing is kept of it.
    pub fn get_or_load<P: FrameProvider>(&mut self, index: u64, source: &mut P) -> (outcome:
        Result<Frame, FrameError>)
        ensures
            loaded(
                old(self)@,
                *old(source),
                index,
                outcome_view(outcome),
                final(self)@,
                *final(source),
            ),
    {
        if let Some(frame) = self.frames.get(&index) {
            return Ok(frame.clone());
        }
        let decoded = source.get_frame(index);
        self.store(index, decoded)
    }

    /// Drops every frame.
    pub fn clear(&mut self)
        ensures
            final(self)@ == Map::<u64, Raster>::empty(),
    {
        self.frames.clear();
        assert(self@ =~= Map::<u64, Raster>::empty());
    }
}

/// A frame stored under one index leaves what is held under every other
/// index as it was.
pub proof fn lemma_store_keeps_others(
    cache: Map<u64, Raster>,
    index: u64,
    outcome: Result<Raster, FrameError>,
    other: u64,
)
    requires
        other != index,
    ensures
        stored(cache, index, outcome).contains_key(other) == cache.contains_key(other),
        stored(cache, index, outcome)[other] == cache[other],
{
}

/// A request leaves what the cache holds under every other index as it was.
pub proof fn lemma_load_keeps_others<P: FrameProvider>(
    cache: Map<u64, Raster>,
    source: P,
    index: u64,
    outcome: Result<Raster, FrameError>,
    cache_after: Map<u64, Raster>,
    source_after: P,
    other: u64,
)
    requires
        loaded(cache, source, index, outcome, cache_after, source_after),
        other != index,
    ensures
        cache_after.contains_key(other) == cache.contains_key(other),
        cache_after[other] == cache[other],
{
}

/// Of two requests for the same frame with nothing cleared between them,
/// the second, after a first that gave a frame, gives the same frame, does
/// not ask the source and leaves the cache as it was.
pub proof fn lemma_second_load_hits<P: FrameProvider>(
    cache: Map<u64, Raster>,
    source: P,
    index: u64,
    first: Result<Raster, FrameError>,
    cache_between: Map<u64, Raster>,
    source_between: P,
    second: Result<Raster, FrameError>,
    cache_after: Map<u64, Raster>,
    source_after: P,
)
    requires
        loaded(cache, source, index, first, cache_between, source_between),
        loaded(cache_between, source_between, index, second, cache_after, source_after),
        first is Ok,
    ensures
        second == first,
        source_after == source_between,
        cache_after == cache_between,
{
}

} // verus!
