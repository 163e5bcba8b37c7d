use vstd::prelude::*;
use crate::error::FrameError;
use crate::frame::{Frame, Raster};
use crate::frame_provider::outcome_view;

verus! {

#[verifier::external_type_specification]
#[verifier::external_body]
pub struct ExImageError(image::ImageError);

/// What the codec makes of a file: the width, the height and the RGBA8
/// samples of the image that `bytes` hold in the format that the extension of
/// `path` names, or nothing where it gives an error.
pub uninterp spec fn decoded_rgba8(path: Seq<char>, bytes: Seq<u8>) -> Option<(u32, u32, Seq<u8>)>;

/// Runs the codec on the bytes of a file. The format is the one that
/// `image::ImageFormat::from_path` reads off the extension of `path`;
/// `image::load_from_memory_with_format` decodes `bytes` in it, and
/// `image::DynamicImage::into_rgba8` turns what was decoded into RGBA8.
/// Nothing is proved of this: the contract only gives the result its name,
/// which claims that the same path and bytes always decode alike.
#[verifier::external_body]
fn decode_rgba8(path: &str, bytes: &[u8]) -> (decoded: Result<
    (u32, u32, Vec<u8>),
    image::ImageError,
>)
    ensures
        match decoded {
            Ok((width, height, samples)) => decoded_rgba8(path@, bytes@) == Some(
                (width, height, samples@),
            ),
            Err(_) => decoded_rgba8(path@, bytes@) is None,
        },
{
    let format = image::ImageFormat::from_path(path)?;
    let picture = image::load_from_memory_with_format(bytes, format)?.into_rgba8();
    Ok((picture.width(), picture.height(), picture.into_raw()))
}

/// The frame that a buffer of the given dimensions makes, or why it makes none.
pub open spec fn raster_of_raw(width: u32, height: u32, samples: Seq<u8>) -> Result<
    Raster,
    FrameError,
> {
    let raster = Raster { width: width as nat, height: height as nat, samples };
    if raster.well_formed() {
        Ok(raster)
    } else {
        Err(FrameError::DecodeError)
    }
}

/// What decoding the bytes of the file at `path` comes to.
pub open spec fn decode_outcome(path: Seq<char>, bytes: Seq<u8>) -> Result<Raster, FrameError> {
    match decoded_rgba8(path, bytes) {
        Some((width, height, samples)) => raster_of_raw(width, height, samples),
        None => Err(FrameError::DecodeError),
    }
}

/// Makes the frame of what a codec handed out. A buffer that is no RGBA8
/// raster of the stated dimensions counts as a failure to decode.
pub fn frame_of_raw(width: u32, height: u32, samples: Vec<u8>) -> (outcome: Result<
    Frame,
    FrameError,
>)
    ensures
        outcome_view(outcome) == raster_of_raw(width, height, samples@),
{
    match Frame::from_raw(width, height, samples) {
        Some(frame) => Ok(frame),
        None => Err(FrameError::DecodeError),
    }
}

/// Decodes the bytes of the image file at `path`.
pub fn decode_frame(path: &str, bytes: &[u8]) -> (outcome: Result<Frame, FrameError>)
    ensures
        outcome_view(outcome) == decode_outcome(path@, bytes@),
{
    match decode_rgba8(path, bytes) {
        Ok((width, height, samples)) => frame_of_raw(width, height, samples),
        Err(_) => Err(FrameError::DecodeError),
    }
}

/// What has to happen before a frame of a file-backed source can be had.
pub enum Lookup {
    /// The frame is at hand.
    Ready(Frame),
    /// The file at this path has to be read and handed over.
    Read(String),
    /// The request fails.
    Fail(FrameError),
}

/// The content of a `Lookup`.
pub enum LookupView {
    /// The frame at hand.
    Ready(Raster),
    /// The path of the file to be read.
    Read(Seq<char>),
    /// Why the request fails.
    Fail(FrameError),
}

impl View for Lookup {
    type V = LookupView;

    open spec fn view(&self) -> LookupView {
        match *self {
            Lookup::Ready(frame) => LookupView::Ready(frame@),
            Lookup::Read(path) => LookupView::Read(path@),
            Lookup::Fail(error) => LookupView::Fail(error),
        }
    }
}

/// The bytes of a file as a sequence, or nothing for a file that is missing.
pub open spec fn file_view(file: Option<Vec<u8>>) -> Option<Seq<u8>> {
    match file {
        Some(bytes) => Some(bytes@),
        None => None,
    }
}

/// What an image sequence is, as mathematics.
pub struct SequenceState {
    /// The paths of the files, in playback order.
    pub paths: Seq<Seq<char>>,
    /// The number of the frame decoded last, with its content.
    pub last_decoded: Option<(u64, Raster)>,
}

impl SequenceState {
    /// What a request for frame `frame_number` needs: nothing where it is
    /// the frame decoded last, else the file at that position in the list.
    /// Beyond the end of the list the request fails.
    pub open spec fn located(self, frame_number: u64) -> LookupView {
        if frame_number >= self.paths.len() {
            LookupView::Fail(FrameError::OutOfRange)
        } else {
            match self.last_decoded {
                Some((number, raster)) if number == frame_number => LookupView::Ready(raster),
                _ => LookupView::Read(self.paths[frame_number as int]),
            }
        }
    }

    /// What frame `frame_number` comes to once the file is read: `file`
    /// holds its bytes, or nothing where the file is missing.
    pub open spec fn accepted(self, frame_number: u64, file: Option<Seq<u8>>) -> Result<
        Raster,
        FrameError,
    > {
        if frame_number >= self.paths.len() {
            Err(FrameError::OutOfRange)
        } else {
            match file {
                Some(bytes) => decode_outcome(self.paths[frame_number as int], bytes),
                None => Err(FrameError::NotFound),
            }
        }
    }

    /// The sequence after frame `frame_number` was decoded from `file`: a
    /// frame that was decoded is the one decoded last, and a failure leaves
    /// the sequence as it was.
    pub open spec fn after_accept(self, frame_number: u64, file: Option<Seq<u8>>) -> SequenceState {
        match self.accepted(frame_number, file) {
            Ok(raster) => SequenceState {
                paths: self.paths,
                last_decoded: Some((frame_number, raster)),
            },
            Err(_) => self,
        }
    }
}

/// An ordered list of image files, one for each frame. The frame decoded
/// last is kept, so that asking for it again costs no second decode.
pub struct ImageSequenceFrameProvider {
    file_list: Vec<String>,
    cached_frame: Option<Frame>,
    last_loaded_frame: u64,
}

impl View for ImageSequenceFrameProvider {
    type V = SequenceState;

    closed spec fn view(&self) -> SequenceState {
        SequenceState {
            paths: self.file_list@.map_values(|path: String| path@),
            last_decoded: match self.cached_frame {
                Some(frame) => Some((self.last_loaded_frame, frame@)),
                None => None,
            },
        }
    }
}

impl ImageSequenceFrameProvider {
    /// A source over `frames`, taken in the order given. Nothing is decoded yet.
    pub fn new(frames: Vec<String>) -> (provider: Self)
        ensures
            provider@ == (SequenceState {
                paths: frames@.map_values(|path: String| path@),
                last_decoded: None,
            }),
    {
        ImageSequenceFrameProvider { file_list: frames, cached_frame: None, last_loaded_frame: 0 }
    }

    /// The number of frames.
    pub fn len(&self) -> (count: usize)
        ensures
            count == self@.paths.len(),
    {
        self.file_list.len()
    }

    /// Says what a request for frame `frame_number` needs. The source is
    /// left as it is and no codec runs.
    pub fn locate(&self, frame_number: u64) -> (lookup: Lookup)
        ensures
            lookup@ == self@.located(frame_number),
    {
        if frame_number >= self.file_list.len() as u64 {
            return Lookup::Fail(FrameError::OutOfRange);
        }
        if self.last_loaded_frame == frame_number {
            if let Some(frame) = &self.cached_frame {
                return Lookup::Ready(frame.clone());
            }
        }
        Lookup::Read(self.file_list[frame_number as usize].clone())
    }

    /// Decodes frame `frame_number` from the content of its file and keeps
    /// it as the frame decoded last. A failure leaves the source as it was.
    pub fn accept(&mut self, frame_number: u64, file: Option<Vec<u8>>) -> (outcome: Result<
        Frame,
        FrameError,
    >)
        ensures
            outcome_view(outcome) == old(self)@.accepted(frame_number, file_view(file)),
            final(self)@ == old(self)@.after_accept(frame_number, file_view(file)),
    {
        if frame_number >= self.file_list.len() as u64 {
            return Err(FrameError::OutOfRange);
        }
        let bytes = match file {
            Some(bytes) => bytes,
            None => {
                return Err(FrameError::NotFound);
            },
        };
        let frame = decode_frame(
            self.file_list[frame_number as usize].as_str(),
            bytes.as_slice(),
        )?;
        self.cached_frame = Some(frame.clone());
        self.last_loaded_frame = frame_number;
        Ok(frame)
    }
}

/// A sequence takes its frames from its files in the order of the list:
/// frame `frame_number` is what the codec makes of the file at that
/// position, and a sequence that has decoded nothing asks for that file. A
/// frame number beyond the end of the list is out of range, whatever is
/// handed over.
pub proof fn lemma_sequence_order(
    sequence: SequenceState,
    frame_number: u64,
    file: Option<Seq<u8>>,
)
    ensures
        frame_number < sequence.paths.len() && sequence.last_decoded is None
            ==> sequence.located(frame_number) == LookupView::Read(
            sequence.paths[frame_number as int],
        ),
        frame_number < sequence.paths.len() && file is Some ==> sequence.accepted(
            frame_number,
            file,
        ) == decode_outcome(sequence.paths[frame_number as int], file->Some_0),
        frame_number >= sequence.paths.len() ==> sequence.located(frame_number)
            == LookupView::Fail(FrameError::OutOfRange) && sequence.accepted(frame_number, file)
            == Err::<Raster, FrameError>(FrameError::OutOfRange),
{
}

/// What a frame of a sequence comes to rests on the list of files and on the
/// content of the file alone: not on what was decoded before, and so a
/// second decode of the same content gives the same frame.
pub proof fn lemma_decode_is_pure(
    sequence: SequenceState,
    other: SequenceState,
    frame_number: u64,
    file: Option<Seq<u8>>,
)
    requires
        other.paths == sequence.paths,
    ensures
        other.accepted(frame_number, file) == sequence.accepted(frame_number, file),
        sequence.after_accept(frame_number, file).accepted(frame_number, file)
            == sequence.accepted(frame_number, file),
{
}

/// A frame that was decoded is at hand for the next request for the same
/// frame: no file is read and no codec runs for it.
pub proof fn lemma_repeat_is_at_hand(
    sequence: SequenceState,
    frame_number: u64,
    file: Option<Seq<u8>>,
)
    requires
        sequence.accepted(frame_number, file) is Ok,
    ensures
        sequence.after_accept(frame_number, file).located(frame_number) == LookupView::Ready(
            sequence.accepted(frame_number, file)->Ok_0,
        ),
{
}

} // verus!
