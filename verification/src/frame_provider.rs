use vstd::prelude::*;
use crate::error::FrameError;
use crate::frame::{Frame, Raster};
use crate::frame_provider::image_sequence_provider::{
    file_view,
    ImageSequenceFrameProvider,
    Lookup,
    LookupView,
    SequenceState,
};
use crate::frame_provider::null_provider::{gradient, NullFrameProvider};

pub mod image_sequence_provider;
pub mod null_provider;

verus! {

/// The content of what a request for a frame came to.
pub open spec fn outcome_view(outcome: Result<Frame, FrameError>) -> Result<Raster, FrameError> {
    match outcome {
        Ok(frame) => Ok(frame@),
        Err(error) => Err(error),
    }
}

/// A producer of frames by frame number.
pub trait FrameProvider: Sized {
    /// Whether a request for frame `frame_number`, made of this provider, may
    /// come to `outcome` and leave the provider as `after`. A provider that
    /// says nothing of itself admits every outcome.
    open spec fn answers(
        self,
        frame_number: u64,
        outcome: Result<Raster, FrameError>,
        after: Self,
    ) -> bool {
        true
    }

    /// Decodes frame `frame_number`.
    fn get_frame(&mut self, frame_number: u64) -> (outcome: Result<Frame, FrameError>)
        ensures
            old(self).answers(frame_number, outcome_view(outcome), *final(self)),
    ;
}

/// The sources of frames that there are.
pub enum FrameSource {
    /// A placeholder that computes its frames.
    Null(NullFrameProvider),
    /// An ordered list of image files.
    ImageSequence(ImageSequenceFrameProvider),
    /// A video file. No frame of it can be decoded yet.
    Video(String),
}

/// What a frame source is, as mathematics.
pub enum SourceView {
    /// A placeholder whose frames have these dimensions.
    Null { width: nat, height: nat },
    /// An image sequence.
    ImageSequence(SequenceState),
    /// The video file at this path.
    Video { path: Seq<char> },
}

impl SourceView {
    /// What a request for frame `frame_number` needs before it can be met.
    pub open spec fn located(self, frame_number: u64) -> LookupView {
        match self {
            SourceView::Null { width, height } => LookupView::Ready(gradient(width, height)),
            SourceView::ImageSequence(sequence) => sequence.located(frame_number),
            SourceView::Video { path } => LookupView::Fail(FrameError::Unimplemented),
        }
    }

    /// What frame `frame_number` comes to, given the content of the file
    /// that `located` asked for, or nothing where that file is missing.
    pub open spec fn accepted(self, frame_number: u64, file: Option<Seq<u8>>) -> Result<
        Raster,
        FrameError,
    > {
        match self {
            SourceView::Null { width, height } => Ok(gradient(width, height)),
            SourceView::ImageSequence(sequence) => sequence.accepted(frame_number, file),
            SourceView::Video { path } => Err(FrameError::Unimplemented),
        }
    }

    /// The source after frame `frame_number` was decoded from `file`: an
    /// image sequence keeps a frame that it decoded, and nothing else changes.
    pub open spec fn after_accept(self, frame_number: u64, file: Option<Seq<u8>>) -> SourceView {
        match self {
            SourceView::ImageSequence(sequence) => SourceView::ImageSequence(
                sequence.after_accept(frame_number, file),
            ),
            _ => self,
        }
    }

    /// What a request for frame `frame_number` comes to, where `file` is
    /// the content of the file that the request needs, if it needs one and
    /// the file is there. A frame at hand is the answer, whatever `file`
    /// holds.
    pub open spec fn decoded(self, frame_number: u64, file: Option<Seq<u8>>) -> Result<
        Raster,
        FrameError,
    > {
        match self.located(frame_number) {
            LookupView::Ready(raster) => Ok(raster),
            LookupView::Read(_) => self.accepted(frame_number, file),
            LookupView::Fail(error) => Err(error),
        }
    }

    /// The source after such a request: it changes only where a file was
    /// decoded.
    pub open spec fn after_decode(self, frame_number: u64, file: Option<Seq<u8>>) -> SourceView {
        match self.located(frame_number) {
            LookupView::Read(_) => self.after_accept(frame_number, file),
            _ => self,
        }
    }
}

impl View for FrameSource {
    type V = SourceView;

    open spec fn view(&self) -> SourceView {
        match *self {
            FrameSource::Null(provider) => SourceView::Null {
                width: provider.width(),
                height: provider.height(),
            },
            FrameSource::ImageSequence(provider) => SourceView::ImageSequence(provider@),
            FrameSource::Video(path) => SourceView::Video { path: path@ },
        }
    }
}

impl FrameSource {
    /// Says what a request for frame `frame_number` needs: nothing more, a
    /// file to be read, or nothing that could help. The source is left as
    /// it is.
    pub fn locate(&self, frame_number: u64) -> (lookup: Lookup)
        ensures
            lookup@ == self@.located(frame_number),
    {
        match self {
            FrameSource::Null(provider) => Lookup::Ready(provider.frame()),
            FrameSource::ImageSequence(provider) => provider.locate(frame_number),
            FrameSource::Video(_) => Lookup::Fail(FrameError::Unimplemented),
        }
    }

    /// Produces frame `frame_number`, given the content of the file that
    /// `locate` asked for, or nothing where that file is missing.
    pub fn accept(&mut self, frame_number: u64, file: Option<Vec<u8>>) -> (outcome: Result<
        Frame,
        FrameError,
    >)
        ensures
            outcome_view(outcome) == old(self)@.accepted(frame_number, file_view(file)),
            final(self)@ == old(self)@.after_accept(frame_number, file_view(file)),
    {
        match self {
            FrameSource::Null(provider) => Ok(provider.frame()),
            FrameSource::ImageSequence(provider) => provider.accept(frame_number, file),
            FrameSource::Video(_) => Err(FrameError::Unimplemented),
        }
    }
}

/// Decodes frame `frame_number` of `fp`. `file` is the content of the file
/// that `locate` asks for, or nothing where no file is asked for or the file
/// is missing. The placeholder computes its frame, an image sequence hands
/// out the frame decoded last or decodes `file`, and a video fails.
pub fn get_frame(fp: &mut FrameSource, frame_number: u64, file: Option<Vec<u8>>) -> (outcome:
    Result<Frame, FrameError>)
    ensures
        outcome_view(outcome) == old(fp)@.decoded(frame_number, file_view(file)),
        final(fp)@ == old(fp)@.after_decode(frame_number, file_view(file)),
{
    match fp.locate(frame_number) {
        Lookup::Ready(frame) => Ok(frame),
        Lookup::Read(_) => fp.accept(frame_number, file),
        Lookup::Fail(error) => Err(error),
    }
}

/// The paths that a file dialog handed back, as sequences of characters.
pub open spec fn picked_view(picked: Option<Vec<String>>) -> Option<Seq<Seq<char>>> {
    match picked {
        Some(paths) => Some(paths@.map_values(|path: String| path@)),
        None => None,
    }
}

/// The source that a selection of files stands for. An image sequence is
/// made of all the files in the order given, a video of the first one; a
/// dialog that was dismissed, or a video without a file, makes no source.
pub open spec fn provider_for(file_sequence: bool, picked: Option<Seq<Seq<char>>>) -> Option<
    SourceView,
> {
    match picked {
        Some(paths) => {
            if file_sequence {
                Some(SourceView::ImageSequence(SequenceState { paths, last_decoded: None }))
            } else if paths.len() > 0 {
                Some(SourceView::Video { path: paths[0] })
            } else {
                None
            }
        },
        None => None,
    }
}

/// Makes the frame source for what the user picked in a file dialog:
/// `picked` holds the paths, or nothing where the dialog was dismissed. The
/// order of the paths is kept as the order of playback.
pub fn get_frame_provider(file_sequence: bool, picked: Option<Vec<String>>) -> (source: Option<
    FrameSource,
>)
    ensures
        match source {
            Some(made) => Some(made@),
            None => None,
        } == provider_for(file_sequence, picked_view(picked)),
{
    let mut paths = picked?;
    if file_sequence {
        Some(FrameSource::ImageSequence(ImageSequenceFrameProvider::new(paths)))
    } else if paths.len() > 0 {
        Some(FrameSource::Video(paths.swap_remove(0)))
    } else {
        None
    }
}

} // verus!
