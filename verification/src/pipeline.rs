//! The conversion from end to end.
//!
//! A [`Conversion`] decides what happens next; its caller does the work that
//! touches the outside world. The caller performs the [`Action`] that it was
//! handed, reports the outcome as an [`Event`] to [`Conversion::step`], and
//! goes on so until it is handed [`Action::Finish`], on which it releases the
//! scratch directory. A run ends that way on every path: after the last frame
//! was written, after a request to stop, and after any failure.

use crate::error::{prefixed, ConversionError, WriteTarget};
use crate::extractor;
use crate::frames::{collect_frames, ordered, sort_keys, texts};
use crate::picture::{decode_frame, png_image, size_mismatch_text, usable, RgbaFrame};
use crate::state::{ConversionRequest, ConversionState, FULL_PROGRESS};
use crate::stream::{
    frame_chunk,
    frame_start,
    oversize_text,
    prologue,
    trailer,
    uneven_text,
    AnimationStream,
    MAX_DIMENSION,
};
use crate::timing::{
    frame_delay,
    frame_delay_cs,
    progress_after,
    progress_ends_at_hundred,
    progress_is_bounded,
    progress_is_monotonic,
    progress_percent,
    SAMPLING_RATE_FPS,
};
use vstd::prelude::*;
use vstd::string::StringExecFns;

verus! {

/// Where a conversion stands: what its last action asked for.
#[derive(Clone, Copy, Debug, PartialEq, Eq, Structural)]
pub enum Phase {
    /// A scratch directory was asked for.
    AwaitingScratch,
    /// The extraction tool is running.
    Extracting,
    /// The scratch directory is being searched for frames.
    Listing,
    /// The first frame is being read for its size.
    Probing,
    /// The output file is being created.
    OpeningOutput,
    /// The opening bytes of the animation are being written.
    WritingPrologue,
    /// The next frame is being read.
    ReadingFrame,
    /// The bytes of a frame are being written.
    WritingFrame,
    /// The closing byte of the animation is being written.
    Closing,
    /// The run is over.
    Finished,
}

/// How a run ended.
#[derive(Clone, Copy, Debug, PartialEq, Eq, Structural)]
pub enum Ending {
    /// Every frame was written.
    Completed,
    /// The caller asked the conversion to stop.
    Cancelled,
    /// A stage failed.
    Failed,
    /// The caller reported something that did not answer the last action.
    Abandoned,
}

/// What the caller reports after it has performed an action.
#[derive(Debug)]
pub enum Event {
    /// The scratch directory exists at `path`.
    ScratchDirReady { path: String },
    /// No scratch directory could be created.
    ScratchDirFailed { cause: String },
    /// The extraction tool ran and exited, with status zero or not.
    ExtractorExited { success: bool },
    /// The extraction tool could not be started.
    ExtractorNotStarted { cause: String },
    /// These files match the search pattern, in no particular order.
    FramesListed { paths: Vec<String> },
    /// The search pattern was refused.
    FrameListingFailed { cause: String },
    /// The frame file holds these bytes.
    FrameRead { bytes: Vec<u8> },
    /// The frame file could not be read.
    FrameUnreadable { cause: String },
    /// The output file exists and is empty.
    OutputCreated,
    /// The output file could not be created.
    OutputRefused { cause: String },
    /// The bytes were appended to the output.
    Appended,
    /// The bytes could not be appended to the output.
    AppendFailed { cause: String },
}

/// What the caller is asked to do next.
#[derive(Debug)]
pub enum Action {
    /// Create a fresh scratch directory.
    CreateScratchDir,
    /// Run the extraction tool and wait for it to exit.
    RunExtractor { program: String, arguments: Vec<String> },
    /// Find the files that match the pattern.
    ListFrames { pattern: String },
    /// Read the whole file.
    ReadFrame { path: String },
    /// Create the output file, or empty it if it exists.
    CreateOutput { path: String },
    /// Append the bytes to the output file.
    Append { bytes: Vec<u8> },
    /// Release the scratch directory: the run is over.
    Finish,
}

/// One run of a conversion.
pub struct Conversion {
    request: ConversionRequest,
    state: ConversionState,
    phase: Phase,
    scratch_dir: String,
    frames: Vec<String>,
    written: usize,
    size: (u32, u32),
    stream: Option<AnimationStream>,
    ending: Option<Ending>,
    failure: Option<ConversionError>,
}

/// The percentage that stands while `written` of `total` frames are written.
pub open spec fn shown(written: int, total: int) -> int {
    if written == 0 {
        0
    } else {
        progress_after(written - 1, total)
    }
}

/// The status line of a run that has written every frame.
pub open spec fn completed_text(destination: Seq<char>) -> Seq<char> {
    "Completed: "@ + destination
}

impl Conversion {
    /// Where the conversion stands.
    pub closed spec fn phase(self) -> Phase {
        self.phase
    }

    /// The status line.
    pub closed spec fn status(self) -> Seq<char> {
        self.state.status()
    }

    /// The percentage.
    pub closed spec fn progress(self) -> u8 {
        self.state.progress()
    }

    /// Whether a request to stop has reached the conversion.
    pub closed spec fn cancel_seen(self) -> bool {
        self.state.cancelling()
    }

    /// The clip that is converted.
    pub closed spec fn source(self) -> Seq<char> {
        self.request.source_path@
    }

    /// How much of the clip is taken.
    pub closed spec fn duration(self) -> Seq<char> {
        self.request.duration_limit@
    }

    /// The file that receives the animation.
    pub closed spec fn destination(self) -> Seq<char> {
        self.request.destination_path@
    }

    /// The scratch directory of this run.
    pub closed spec fn scratch(self) -> Seq<char> {
        self.scratch_dir@
    }

    /// The frame files in the order in which they are encoded.
    pub closed spec fn frame_paths(self) -> Seq<Seq<char>> {
        texts(self.frames@)
    }

    /// The bytes by which the frame files are ordered.
    pub closed spec fn frame_keys(self) -> Seq<Seq<u8>> {
        sort_keys(self.frames@)
    }

    /// Number of frames whose bytes are in the output.
    pub closed spec fn frames_written(self) -> nat {
        self.written as nat
    }

    /// Width and height of the first frame, which every frame must have.
    pub closed spec fn frame_size(self) -> (u32, u32) {
        self.size
    }

    /// Whether an encoder is at work for this run.
    pub closed spec fn encoding(self) -> bool {
        self.stream is Some
    }

    /// How the run ended, once it has.
    pub closed spec fn ending(self) -> Option<Ending> {
        self.ending
    }

    /// Why the run failed, if it did.
    pub closed spec fn failure(self) -> Option<ConversionError> {
        self.failure
    }

    /// What holds of every conversion between two steps.
    pub closed spec fn wf(self) -> bool {
        &&& self.ending == Some(Ending::Failed) <==> self.failure is Some
        &&& self.failure matches Some(error) ==> self.state.status() == error.status_text()
        &&& self.phase == Phase::Closing || self.phase == Phase::Finished <==> self.ending is Some
        &&& self.written <= self.frames@.len()
        &&& self.state.progress() <= FULL_PROGRESS
        &&& match self.phase {
            Phase::AwaitingScratch | Phase::Extracting | Phase::Listing => {
                &&& self.stream is None
                &&& self.written == 0
                &&& self.frames@.len() == 0
                &&& self.state.progress() == 0
            },
            Phase::Probing | Phase::OpeningOutput => {
                &&& self.stream is None
                &&& self.written == 0
                &&& self.frames@.len() > 0
                &&& ordered(sort_keys(self.frames@))
                &&& self.state.progress() == 0
            },
            Phase::WritingPrologue => {
                &&& self.stream matches Some(stream) && self.holds(stream)
                &&& self.written == 0
                &&& self.frames@.len() > 0
                &&& ordered(sort_keys(self.frames@))
                &&& self.state.progress() == 0
            },
            Phase::ReadingFrame | Phase::WritingFrame => {
                &&& self.stream matches Some(stream) && self.holds(stream)
                &&& self.written < self.frames@.len()
                &&& ordered(sort_keys(self.frames@))
                &&& self.state.progress() == shown(self.written as int, self.frames@.len() as int)
            },
            Phase::Closing | Phase::Finished => self.stream is None,
        }
    }

    /// The encoder of this run has the size of the first frame and has handed
    /// out all that it has produced.
    spec fn holds(self, stream: AnimationStream) -> bool {
        &&& stream.unsent() == Seq::<u8>::empty()
        &&& stream.frame_width() == self.size.0
        &&& stream.frame_height() == self.size.1
    }

    /// Starts a run: the status reads `Processing...`, nothing is done yet, and
    /// the first thing asked for is a scratch directory.
    pub fn start(request: ConversionRequest) -> (started: (Conversion, Action))
        ensures
            started.0.wf(),
            started.0.phase() == Phase::AwaitingScratch,
            started.0.status() == "Processing..."@,
            started.0.progress() == 0,
            !started.0.cancel_seen(),
            !started.0.encoding(),
            started.0.ending() is None,
            started.0.failure() is None,
            started.0.frames_written() == 0,
            started.0.source() == request.source_path@,
            started.0.duration() == request.duration_limit@,
            started.0.destination() == request.destination_path@,
            started.1 is CreateScratchDir,
    {
        let conversion = Conversion {
            request,
            state: ConversionState::started(),
            phase: Phase::AwaitingScratch,
            scratch_dir: String::new(),
            frames: Vec::new(),
            written: 0,
            size: (0, 0),
            stream: None,
            ending: None,
            failure: None,
        };
        (conversion, Action::CreateScratchDir)
    }

    /// Where the conversion stands.
    pub fn current_phase(&self) -> (phase: Phase)
        ensures
            phase == self.phase(),
    {
        self.phase
    }

    /// Whether the run is over.
    pub fn is_finished(&self) -> (finished: bool)
        ensures
            finished == (self.phase() == Phase::Finished),
    {
        self.phase == Phase::Finished
    }

    /// The status line.
    pub fn status_text(&self) -> (text: String)
        ensures
            text@ == self.status(),
    {
        self.state.status_text()
    }

    /// The percentage, from 0 to 100.
    pub fn progress_percent(&self) -> (percent: u8)
        ensures
            percent == self.progress(),
            percent <= FULL_PROGRESS,
    {
        self.state.progress_percent()
    }

    /// Whether a request to stop has reached the conversion.
    pub fn cancel_requested(&self) -> (requested: bool)
        ensures
            requested == self.cancel_seen(),
    {
        self.state.cancel_requested()
    }

    /// Number of frames whose bytes are in the output.
    pub fn written_frames(&self) -> (count: usize)
        ensures
            count == self.frames_written(),
    {
        self.written
    }

    /// Number of frames that were found.
    pub fn total_frames(&self) -> (count: usize)
        ensures
            count == self.frame_paths().len(),
    {
        self.frames.len()
    }

    /// How the run ended, once it has.
    pub fn outcome(&self) -> (ending: Option<Ending>)
        ensures
            ending == self.ending(),
    {
        self.ending
    }

    /// Why the run failed, if it did.
    pub fn error(&self) -> (error: Option<&ConversionError>)
        ensures
            error is Some <==> self.failure() is Some,
            error matches Some(error) ==> self.failure() == Some(*error),
    {
        self.failure.as_ref()
    }

    /// Takes the run one step further: records a request to stop, takes in
    /// `event`, the outcome of the last action, and says what to do next.
    pub fn step(&mut self, event: Event, cancel: bool) -> (action: Action)
        requires
            old(self).wf(),
        ensures
            final(self).wf(),
            kept(*old(self), *final(self), cancel),
            follows(*old(self), event, cancel, *final(self), action),
    {
        if cancel {
            self.state.request_cancellation();
        }
        match self.phase {
            Phase::AwaitingScratch => match event {
                Event::ScratchDirReady { path } => self.extract(path),
                Event::ScratchDirFailed { cause } => self.fail(
                    ConversionError::TemporaryStorage { cause },
                ),
                _ => self.abandon(),
            },
            Phase::Extracting => match event {
                Event::ExtractorExited { success } => match extractor::exit_outcome(success) {
                    Ok(()) => self.list(),
                    Err(error) => self.fail(error),
                },
                Event::ExtractorNotStarted { cause } => {
                    let error = ConversionError::ExternalTool {
                        tool: extractor::program(),
                        launch: Some(cause),
                    };
                    self.fail(error)
                },
                _ => self.abandon(),
            },
            Phase::Listing => match event {
                Event::FramesListed { paths } => match collect_frames(paths) {
                    Ok(frames) => self.probe(frames),
                    Err(error) => self.fail(error),
                },
                Event::FrameListingFailed { cause } => self.fail(
                    ConversionError::FrameDiscovery { cause },
                ),
                _ => self.abandon(),
            },
            Phase::Probing => match event {
                Event::FrameRead { bytes } => {
                    let decoded = decode_frame(bytes.as_slice());
                    self.probed(decoded)
                },
                Event::FrameUnreadable { cause } => self.fail(
                    ConversionError::ImageDecode { cause },
                ),
                _ => self.abandon(),
            },
            Phase::OpeningOutput => match event {
                Event::OutputCreated => {
                    let opened = AnimationStream::open(self.size.0, self.size.1);
                    self.opened(opened)
                },
                Event::OutputRefused { cause } => self.fail(
                    ConversionError::Write { target: WriteTarget::Output, cause },
                ),
                _ => self.abandon(),
            },
            Phase::WritingPrologue => match event {
                Event::Appended => self.turn_to_next_frame(),
                Event::AppendFailed { cause } => {
                    self.stream = None;
                    self.fail(ConversionError::EncoderInit { cause })
                },
                _ => self.abandon(),
            },
            Phase::ReadingFrame => match event {
                Event::FrameRead { bytes } => {
                    let mut stream = self.stream.take().unwrap();
                    let encoded = match decode_frame(bytes.as_slice()) {
                        Ok(frame) => {
                            let delay = frame_delay_cs(SAMPLING_RATE_FPS);
                            let pushed = stream.push_frame(frame, delay);
                            proof {
                                let chunk = frame_chunk(
                                    frame.pixel_width() as u16,
                                    frame.pixel_height() as u16,
                                    frame.pixel_data(),
                                    delay,
                                );
                                let start = frame_start(
                                    frame.pixel_width() as u16,
                                    frame.pixel_height() as u16,
                                    frame.pixel_data(),
                                    delay,
                                );
                                assert(Seq::<u8>::empty() + chunk =~= chunk);
                                assert(Seq::<u8>::empty() + start =~= start);
                            }
                            pushed
                        },
                        Err(error) => Err(error),
                    };
                    self.encoded(stream, encoded)
                },
                Event::FrameUnreadable { cause } => {
                    let stream = self.stream.take().unwrap();
                    self.encoded(stream, Err(ConversionError::ImageDecode { cause }))
                },
                _ => self.abandon(),
            },
            Phase::WritingFrame => match event {
                Event::Appended => self.frame_written(),
                Event::AppendFailed { cause } => {
                    self.stream = None;
                    self.fail(ConversionError::Write { target: WriteTarget::Frame, cause })
                },
                _ => self.abandon(),
            },
            Phase::Closing => {
                self.phase = Phase::Finished;
                Action::Finish
            },
            Phase::Finished => Action::Finish,
        }
    }

    /// Ends the run on a failure that leaves nothing to close.
    fn fail(&mut self, error: ConversionError) -> (action: Action)
        requires
            old(self).stream is None,
            old(self).ending is None,
            old(self).failure is None,
            old(self).written <= old(self).frames@.len(),
            old(self).state.progress() <= FULL_PROGRESS,
        ensures
            final(self).wf(),
            stopped(*old(self), *final(self), action),
            final(self).size == old(self).size,
            final(self).failure == Some(error),
            final(self).request == old(self).request,
            final(self).frames == old(self).frames,
            final(self).written == old(self).written,
            final(self).scratch_dir == old(self).scratch_dir,
            final(self).state.cancelling() == old(self).state.cancelling(),
    {
        let text = error.status();
        self.state.set_status(text);
        self.failure = Some(error);
        self.ending = Some(Ending::Failed);
        self.phase = Phase::Finished;
        Action::Finish
    }

    /// Ends the run because the caller's report does not answer the last
    /// action.
    fn abandon(&mut self) -> (action: Action)
        requires
            old(self).ending is None,
            old(self).failure is None,
            old(self).written <= old(self).frames@.len(),
            old(self).state.progress() <= FULL_PROGRESS,
        ensures
            final(self).wf(),
            abandoned(*old(self), *final(self), action),
            final(self).size == old(self).size,
            final(self).request == old(self).request,
            final(self).frames == old(self).frames,
            final(self).written == old(self).written,
            final(self).scratch_dir == old(self).scratch_dir,
            final(self).state == old(self).state,
    {
        self.stream = None;
        self.ending = Some(Ending::Abandoned);
        self.phase = Phase::Finished;
        Action::Finish
    }

    /// Asks for the extraction of the frames into the scratch directory.
    fn extract(&mut self, path: String) -> (action: Action)
        requires
            old(self).wf(),
            old(self).phase == Phase::AwaitingScratch,
        ensures
            final(self).wf(),
            extracting(*old(self), path@, *final(self), action),
            final(self).size == old(self).size,
            final(self).request == old(self).request,
            final(self).frames == old(self).frames,
            final(self).written == old(self).written,
            final(self).state.cancelling() == old(self).state.cancelling(),
    {
        self.state.set_status(String::from_str("Extracting frames..."));
        let arguments = extractor::arguments(
            self.request.source_path.as_str(),
            self.request.duration_limit.as_str(),
            path.as_str(),
        );
        self.scratch_dir = path;
        self.phase = Phase::Extracting;
        Action::RunExtractor { program: extractor::program(), arguments }
    }

    /// Asks for the frames that the extraction tool has written.
    fn list(&mut self) -> (action: Action)
        requires
            old(self).wf(),
            old(self).phase == Phase::Extracting,
        ensures
            final(self).wf(),
            listing(*old(self), *final(self), action),
            final(self).size == old(self).size,
            final(self).scratch_dir == old(self).scratch_dir,
            final(self).request == old(self).request,
            final(self).frames == old(self).frames,
            final(self).written == old(self).written,
            final(self).state == old(self).state,
    {
        self.phase = Phase::Listing;
        Action::ListFrames { pattern: extractor::search_pattern(self.scratch_dir.as_str()) }
    }

    /// Takes the ordered frames and asks for the first of them, whose size
    /// will be the size of the animation.
    fn probe(&mut self, frames: Vec<String>) -> (action: Action)
        requires
            old(self).wf(),
            old(self).phase == Phase::Listing,
            frames@.len() > 0,
            ordered(sort_keys(frames@)),
        ensures
            final(self).wf(),
            probing(*old(self), texts(frames@), *final(self), action),
            final(self).size == old(self).size,
            final(self).scratch_dir == old(self).scratch_dir,
            final(self).frames == frames,
            final(self).request == old(self).request,
            final(self).written == old(self).written,
            final(self).state == old(self).state,
    {
        let first = frames[0].clone();
        self.frames = frames;
        self.phase = Phase::Probing;
        Action::ReadFrame { path: first }
    }

    /// Takes the first frame as it was decoded and asks for the output file.
    fn probed(&mut self, decoded: Result<RgbaFrame, ConversionError>) -> (action: Action)
        requires
            old(self).wf(),
            old(self).phase == Phase::Probing,
        ensures
            final(self).wf(),
            match decoded {
                Ok(frame) => creating_output(*old(self), *final(self), action) && final(self).size
                    == (frame.pixel_width(), frame.pixel_height()),
                Err(error) => stopped(*old(self), *final(self), action) && final(self).failure
                    == Some(error),
            },
            final(self).request == old(self).request,
            final(self).scratch_dir == old(self).scratch_dir,
            final(self).frames == old(self).frames,
            final(self).written == old(self).written,
            final(self).state.cancelling() == old(self).state.cancelling(),
    {
        match decoded {
            Ok(frame) => {
                self.size = (frame.width(), frame.height());
                self.phase = Phase::OpeningOutput;
                Action::CreateOutput { path: self.request.destination_path.clone() }
            },
            Err(error) => self.fail(error),
        }
    }

    /// Takes the animation as it was opened and asks for its opening bytes
    /// to be written.
    fn opened(
        &mut self,
        opened: Result<(AnimationStream, Vec<u8>), ConversionError>,
    ) -> (action: Action)
        requires
            old(self).wf(),
            old(self).phase == Phase::OpeningOutput,
            opened matches Ok((stream, _)) ==> old(self).holds(stream),
        ensures
            final(self).wf(),
            final(self).size == old(self).size,
            match opened {
                Ok((stream, bytes)) => writing_prologue(*old(self), bytes@, *final(self), action),
                Err(error) => stopped(*old(self), *final(self), action) && final(self).failure
                    == Some(error),
            },
            final(self).request == old(self).request,
            final(self).scratch_dir == old(self).scratch_dir,
            final(self).frames == old(self).frames,
            final(self).written == old(self).written,
            final(self).state.cancelling() == old(self).state.cancelling(),
    {
        match opened {
            Ok((stream, bytes)) => {
                self.stream = Some(stream);
                self.phase = Phase::WritingPrologue;
                Action::Append { bytes }
            },
            Err(error) => self.fail(error),
        }
    }

    /// Takes the bytes of the frame that was read, or the reason why there
    /// are none, and asks for the bytes to be written or winds the run up.
    fn encoded(
        &mut self,
        stream: AnimationStream,
        encoded: Result<Vec<u8>, ConversionError>,
    ) -> (action: Action)
        requires
            old(self).phase == Phase::ReadingFrame,
            old(self).stream is None,
            old(self).ending is None,
            old(self).failure is None,
            old(self).written < old(self).frames@.len(),
            ordered(sort_keys(old(self).frames@)),
            old(self).state.progress() == shown(
                old(self).written as int,
                old(self).frames@.len() as int,
            ),
            old(self).state.progress() <= FULL_PROGRESS,
            encoded is Ok ==> old(self).holds(stream),
        ensures
            final(self).wf(),
            final(self).size == old(self).size,
            match encoded {
                Ok(bytes) => writing_frame(*old(self), bytes@, *final(self), action),
                Err(error) => {
                    &&& wound_up(*old(self), Ending::Failed, *final(self), action)
                    &&& closing(stream.unsent(), *final(self), action)
                    &&& final(self).failure == Some(error)
                },
            },
            final(self).request == old(self).request,
            final(self).frames == old(self).frames,
            final(self).written == old(self).written,
            final(self).scratch_dir == old(self).scratch_dir,
            final(self).state.cancelling() == old(self).state.cancelling(),
            final(self).state.progress() == old(self).state.progress(),
    {
        match encoded {
            Ok(bytes) => {
                self.stream = Some(stream);
                self.phase = Phase::WritingFrame;
                Action::Append { bytes }
            },
            Err(error) => {
                let text = error.status();
                self.state.set_status(text);
                self.failure = Some(error);
                self.wind_up(stream, Ending::Failed)
            },
        }
    }

    /// Takes note that the bytes of a frame are in the output: shows the new
    /// percentage, and goes on to the next frame or, after the last one,
    /// reports completion and winds the run up.
    fn frame_written(&mut self) -> (action: Action)
        requires
            old(self).wf(),
            old(self).phase == Phase::WritingFrame,
        ensures
            final(self).wf(),
            after_frame(*old(self), old(self).state.cancelling(), *final(self), action),
            final(self).state.progress() >= old(self).state.progress(),
            final(self).size == old(self).size,
            final(self).request == old(self).request,
            final(self).frames == old(self).frames,
            final(self).scratch_dir == old(self).scratch_dir,
            final(self).state.cancelling() == old(self).state.cancelling(),
    {
        let total = self.frames.len();
        let index = self.written;
        let percent = progress_percent(index, total);
        proof {
            if index > 0 {
                progress_is_monotonic(index - 1, index as int, total as int);
            }
            progress_is_bounded(index as int, total as int);
        }
        self.state.raise_progress(percent);
        self.written = index + 1;
        if self.written == total {
            proof {
                progress_ends_at_hundred(total as int);
            }
            let text = prefixed("Completed: ", self.request.destination_path.as_str());
            self.state.set_status(text);
            self.state.raise_progress(FULL_PROGRESS);
            let stream = self.stream.take().unwrap();
            self.wind_up(stream, Ending::Completed)
        } else {
            self.turn_to_next_frame()
        }
    }

    /// Before each frame: stops if the caller has asked for it, else asks for
    /// the frame.
    fn turn_to_next_frame(&mut self) -> (action: Action)
        requires
            old(self).phase == Phase::WritingPrologue || old(self).phase == Phase::WritingFrame,
            old(self).stream matches Some(stream) && old(self).holds(stream),
            old(self).state.progress() <= FULL_PROGRESS,
            old(self).ending is None,
            old(self).failure is None,
            old(self).written < old(self).frames@.len(),
            ordered(sort_keys(old(self).frames@)),
            old(self).state.progress() == shown(
                old(self).written as int,
                old(self).frames@.len() as int,
            ),
        ensures
            final(self).wf(),
            next_frame(*old(self), old(self).state.cancelling(), *final(self), action),
            final(self).size == old(self).size,
            final(self).request == old(self).request,
            final(self).frames == old(self).frames,
            final(self).written == old(self).written,
            final(self).scratch_dir == old(self).scratch_dir,
            final(self).state.cancelling() == old(self).state.cancelling(),
            final(self).state.progress() == old(self).state.progress(),
    {
        if self.state.cancel_requested() {
            self.state.set_status(String::from_str("Cancelled"));
            let stream = self.stream.take().unwrap();
            self.wind_up(stream, Ending::Cancelled)
        } else {
            let path = self.frames[self.written].clone();
            self.phase = Phase::ReadingFrame;
            Action::ReadFrame { path }
        }
    }

    /// Closes the animation and asks for its closing byte to be written.
    fn wind_up(&mut self, stream: AnimationStream, ending: Ending) -> (action: Action)
        requires
            old(self).stream is None,
            old(self).ending is None,
            old(self).written <= old(self).frames@.len(),
            old(self).state.progress() <= FULL_PROGRESS,
            ending == Ending::Failed <==> old(self).failure is Some,
            old(self).failure matches Some(error) ==> old(self).state.status()
                == error.status_text(),
        ensures
            final(self).wf(),
            final(self).ending == Some(ending),
            final(self).size == old(self).size,
            closing(stream.unsent(), *final(self), action),
            final(self).request == old(self).request,
            final(self).frames == old(self).frames,
            final(self).written == old(self).written,
            final(self).scratch_dir == old(self).scratch_dir,
            final(self).state == old(self).state,
            final(self).failure == old(self).failure,
    {
        self.ending = Some(ending);
        self.phase = Phase::Closing;
        Action::Append { bytes: stream.close() }
    }
}

/// What no step changes, and what a step changes in one direction only: the
/// request stays, the frames stay once they are known, progress never goes
/// back, and a request to stop is never forgotten.
pub open spec fn kept(before: Conversion, after: Conversion, cancel: bool) -> bool {
    &&& after.source() == before.source()
    &&& after.duration() == before.duration()
    &&& after.destination() == before.destination()
    &&& after.progress() >= before.progress()
    &&& after.progress() <= FULL_PROGRESS
    &&& after.cancel_seen() == (before.cancel_seen() || cancel)
    &&& after.frames_written() >= before.frames_written()
    &&& before.phase() != Phase::Listing ==> after.frame_paths() == before.frame_paths()
    &&& before.phase() != Phase::AwaitingScratch ==> after.scratch() == before.scratch()
    &&& before.phase() != Phase::Probing ==> after.frame_size() == before.frame_size()
    &&& before.ending() is Some ==> after.ending() == before.ending()
    &&& before.failure() is Some ==> after.failure() == before.failure()
}

/// The run has ended on a failure: the status reports the error, progress
/// stays where it was, no encoder is at work, and all that is left to do is to
/// release the scratch directory.
pub open spec fn stopped(before: Conversion, after: Conversion, action: Action) -> bool {
    &&& after.phase() == Phase::Finished
    &&& after.ending() == Some(Ending::Failed)
    &&& after.failure() matches Some(error) && after.status() == error.status_text()
    &&& after.progress() == before.progress()
    &&& after.frames_written() == before.frames_written()
    &&& !after.encoding()
    &&& action is Finish
}

/// The run has ended because a report did not answer the last action: status
/// and progress stay as they were.
pub open spec fn abandoned(before: Conversion, after: Conversion, action: Action) -> bool {
    &&& after.phase() == Phase::Finished
    &&& after.ending() == Some(Ending::Abandoned)
    &&& after.failure() is None
    &&& after.status() == before.status()
    &&& after.progress() == before.progress()
    &&& after.frames_written() == before.frames_written()
    &&& !after.encoding()
    &&& action is Finish
}

/// The extraction tool is asked to write the frames of the source into the
/// scratch directory.
pub open spec fn extracting(
    before: Conversion,
    scratch: Seq<char>,
    after: Conversion,
    action: Action,
) -> bool {
    &&& after.phase() == Phase::Extracting
    &&& after.scratch() == scratch
    &&& after.status() == "Extracting frames..."@
    &&& after.progress() == before.progress()
    &&& after.frames_written() == before.frames_written()
    &&& after.ending() is None
    &&& !after.encoding()
    &&& action matches Action::RunExtractor { program, arguments }
    &&& program@ == extractor::program_text()
    &&& texts(arguments@) == extractor::argument_texts(before.source(), before.duration(), scratch)
}

/// The frames in the scratch directory are asked for.
pub open spec fn listing(before: Conversion, after: Conversion, action: Action) -> bool {
    &&& after.phase() == Phase::Listing
    &&& after.status() == before.status()
    &&& after.progress() == before.progress()
    &&& after.frames_written() == before.frames_written()
    &&& after.ending() is None
    &&& !after.encoding()
    &&& action matches Action::ListFrames { pattern }
    &&& pattern@ == extractor::search_pattern_text(before.scratch())
}

/// The frames that were found are known in their order, and the first of them
/// is asked for.
pub open spec fn probing(
    before: Conversion,
    frames: Seq<Seq<char>>,
    after: Conversion,
    action: Action,
) -> bool {
    &&& after.phase() == Phase::Probing
    &&& after.frame_paths() == frames
    &&& frames.len() > 0
    &&& ordered(after.frame_keys())
    &&& after.status() == before.status()
    &&& after.progress() == before.progress()
    &&& after.frames_written() == before.frames_written()
    &&& after.ending() is None
    &&& !after.encoding()
    &&& action matches Action::ReadFrame { path }
    &&& path@ == frames[0]
}

/// The output file is asked for, at the destination of the request.
pub open spec fn creating_output(before: Conversion, after: Conversion, action: Action) -> bool {
    &&& after.phase() == Phase::OpeningOutput
    &&& after.status() == before.status()
    &&& after.progress() == before.progress()
    &&& after.frames_written() == before.frames_written()
    &&& after.ending() is None
    &&& !after.encoding()
    &&& action matches Action::CreateOutput { path }
    &&& path@ == before.destination()
}

/// An encoder is at work, and the opening bytes of the animation are to be
/// written.
pub open spec fn writing_prologue(
    before: Conversion,
    bytes: Seq<u8>,
    after: Conversion,
    action: Action,
) -> bool {
    &&& after.phase() == Phase::WritingPrologue
    &&& after.status() == before.status()
    &&& after.progress() == before.progress()
    &&& after.frames_written() == before.frames_written()
    &&& after.ending() is None
    &&& after.encoding()
    &&& action matches Action::Append { bytes: chunk }
    &&& chunk@ == bytes
}

/// The bytes of the frame that was read are to be written.
pub open spec fn writing_frame(
    before: Conversion,
    bytes: Seq<u8>,
    after: Conversion,
    action: Action,
) -> bool {
    &&& after.phase() == Phase::WritingFrame
    &&& after.status() == before.status()
    &&& after.progress() == before.progress()
    &&& after.frames_written() == before.frames_written()
    &&& after.ending() is None
    &&& after.encoding()
    &&& action matches Action::Append { bytes: chunk }
    &&& chunk@ == bytes
}

/// The encoder is done, and the last bytes of the animation are to be
/// written: what the encoder had not handed out yet, and the trailer.
pub open spec fn closing(unsent: Seq<u8>, after: Conversion, action: Action) -> bool {
    &&& !after.encoding()
    &&& after.ending() is Some
    &&& after.phase() == Phase::Closing
    &&& action matches Action::Append { bytes }
    &&& bytes@ == unsent + trailer()
}

/// The run is being wound up with the given ending: no further frame is read
/// or written, and progress stays where it was.
pub open spec fn wound_up(
    before: Conversion,
    ending: Ending,
    after: Conversion,
    action: Action,
) -> bool {
    &&& after.ending() == Some(ending)
    &&& after.progress() == before.progress()
    &&& after.frames_written() == before.frames_written()
    &&& !after.encoding()
    &&& after.failure() matches Some(error) ==> after.status() == error.status_text()
    &&& after.phase() == Phase::Closing
    &&& action is Append
}

/// Before a frame is read: a request to stop ends the run with the status
/// `Cancelled` and with progress as it stood, and only the closing byte is
/// still written; without such a request the next frame in order is asked
/// for.
pub open spec fn next_frame(
    before: Conversion,
    stop: bool,
    after: Conversion,
    action: Action,
) -> bool {
    &&& after.progress() == before.progress()
    &&& after.frames_written() == before.frames_written()
    &&& if stop {
        &&& after.status() == "Cancelled"@
        &&& after.ending() == Some(Ending::Cancelled)
        &&& after.failure() is None
        &&& closing(Seq::<u8>::empty(), after, action)
    } else {
        &&& after.phase() == Phase::ReadingFrame
        &&& after.status() == before.status()
        &&& after.ending() is None
        &&& after.encoding()
        &&& action matches Action::ReadFrame { path }
        &&& before.frames_written() < before.frame_paths().len()
        &&& path@ == before.frame_paths()[before.frames_written() as int]
    }
}

/// After the bytes of a frame are in the output: one more frame is written
/// and the percentage is that of this frame. After the last frame the status
/// reports completion, the percentage is 100 and only the closing byte is
/// still written; before that the next frame is turned to.
pub open spec fn after_frame(
    before: Conversion,
    stop: bool,
    after: Conversion,
    action: Action,
) -> bool {
    let total = before.frame_paths().len() as int;
    let index = before.frames_written() as int;
    &&& index < total
    &&& after.frames_written() == index + 1
    &&& after.progress() == progress_after(index, total)
    &&& if index + 1 == total {
        &&& after.progress() == FULL_PROGRESS
        &&& after.status() == completed_text(before.destination())
        &&& after.ending() == Some(Ending::Completed)
        &&& after.failure() is None
        &&& closing(Seq::<u8>::empty(), after, action)
    } else if stop {
        &&& after.status() == "Cancelled"@
        &&& after.ending() == Some(Ending::Cancelled)
        &&& after.failure() is None
        &&& closing(Seq::<u8>::empty(), after, action)
    } else {
        &&& after.phase() == Phase::ReadingFrame
        &&& after.status() == before.status()
        &&& after.ending() is None
        &&& after.encoding()
        &&& action matches Action::ReadFrame { path }
        &&& path@ == before.frame_paths()[index + 1]
    }
}

/// The first frame was read. If its bytes hold a usable image, its size is
/// the size of the animation and the output file is asked for; if not, the run
/// has failed.
pub open spec fn first_frame_taken(
    before: Conversion,
    bytes: Seq<u8>,
    after: Conversion,
    action: Action,
) -> bool {
    if usable(bytes) {
        let image = png_image(bytes)->0;
        &&& creating_output(before, after, action)
        &&& after.frame_size() == (image.0, image.1)
    } else {
        &&& stopped(before, after, action)
        &&& after.failure() matches Some(ConversionError::ImageDecode { cause })
        &&& png_image(bytes) is Some ==> cause@ == size_mismatch_text()
    }
}

/// The output file exists. If the format can hold the size of the first
/// frame, the bytes that open an endlessly repeating animation of that size
/// are to be written; if not, the run has failed.
pub open spec fn animation_opened(before: Conversion, after: Conversion, action: Action) -> bool {
    let size = before.frame_size();
    if size.0 <= MAX_DIMENSION && size.1 <= MAX_DIMENSION {
        writing_prologue(before, prologue(size.0 as u16, size.1 as u16), after, action)
    } else {
        &&& stopped(before, after, action)
        &&& after.failure() matches Some(ConversionError::EncoderInit { cause })
        &&& cause@ == oversize_text()
    }
}

/// A frame was read. If its bytes hold a usable image of the size of the
/// animation, the bytes of that frame, shown for the delay that goes with the
/// sampling rate, are to be written; or else the encoder got no memory to
/// compress the frame, the run has failed, and the animation is closed behind
/// the beginning of that frame. In every other case the run has failed on the
/// frame, and the animation is closed as it stands.
pub open spec fn frame_taken(
    before: Conversion,
    bytes: Seq<u8>,
    after: Conversion,
    action: Action,
) -> bool {
    if usable(bytes) {
        let image = png_image(bytes)->0;
        if (image.0, image.1) == before.frame_size() {
            ||| writing_frame(
                before,
                frame_chunk(
                    image.0 as u16,
                    image.1 as u16,
                    image.2,
                    frame_delay(SAMPLING_RATE_FPS as int) as u16,
                ),
                after,
                action,
            )
            ||| {
                &&& wound_up(before, Ending::Failed, after, action)
                &&& closing(
                    frame_start(
                        image.0 as u16,
                        image.1 as u16,
                        image.2,
                        frame_delay(SAMPLING_RATE_FPS as int) as u16,
                    ),
                    after,
                    action,
                )
                &&& after.failure() matches Some(
                    ConversionError::Write { target: WriteTarget::Frame, .. },
                )
            }
        } else {
            &&& wound_up(before, Ending::Failed, after, action)
            &&& closing(Seq::<u8>::empty(), after, action)
            &&& after.failure() matches Some(ConversionError::ImageDecode { cause })
            &&& cause@ == uneven_text()
        }
    } else {
        &&& wound_up(before, Ending::Failed, after, action)
        &&& closing(Seq::<u8>::empty(), after, action)
        &&& after.failure() matches Some(ConversionError::ImageDecode { cause })
        &&& png_image(bytes) is Some ==> cause@ == size_mismatch_text()
    }
}

/// What a step makes of an event, phase by phase. A request to stop counts
/// from the step that brings it.
pub open spec fn follows(
    before: Conversion,
    event: Event,
    cancel: bool,
    after: Conversion,
    action: Action,
) -> bool {
    let stop = before.cancel_seen() || cancel;
    &&& after.phase() == Phase::Finished <==> action is Finish
    &&& match (before.phase(), event) {
        (Phase::AwaitingScratch, Event::ScratchDirReady { path }) => extracting(
            before,
            path@,
            after,
            action,
        ),
        (Phase::AwaitingScratch, Event::ScratchDirFailed { cause }) => {
            &&& stopped(before, after, action)
            &&& after.failure() == Some(ConversionError::TemporaryStorage { cause })
        },
        (Phase::Extracting, Event::ExtractorExited { success }) => if success {
            listing(before, after, action)
        } else {
            &&& stopped(before, after, action)
            &&& after.failure() matches Some(ConversionError::ExternalTool { tool, launch })
            &&& tool@ == extractor::program_text()
            &&& launch is None
        },
        (Phase::Extracting, Event::ExtractorNotStarted { cause }) => {
            &&& stopped(before, after, action)
            &&& after.failure() matches Some(ConversionError::ExternalTool { tool, launch })
            &&& tool@ == extractor::program_text()
            &&& launch == Some(cause)
        },
        (Phase::Listing, Event::FramesListed { paths }) => if paths@.len() == 0 {
            &&& stopped(before, after, action)
            &&& after.failure() matches Some(ConversionError::EmptyResult)
        } else {
            &&& probing(before, after.frame_paths(), after, action)
            &&& after.frame_paths().to_multiset() == texts(paths@).to_multiset()
        },
        (Phase::Listing, Event::FrameListingFailed { cause }) => {
            &&& stopped(before, after, action)
            &&& after.failure() == Some(ConversionError::FrameDiscovery { cause })
        },
        (Phase::Probing, Event::FrameRead { bytes }) => first_frame_taken(
            before,
            bytes@,
            after,
            action,
        ),
        (Phase::Probing, Event::FrameUnreadable { cause }) => {
            &&& stopped(before, after, action)
            &&& after.failure() == Some(ConversionError::ImageDecode { cause })
        },
        (Phase::OpeningOutput, Event::OutputCreated) => animation_opened(before, after, action),
        (Phase::OpeningOutput, Event::OutputRefused { cause }) => {
            &&& stopped(before, after, action)
            &&& after.failure() == Some(
                ConversionError::Write { target: WriteTarget::Output, cause },
            )
        },
        (Phase::WritingPrologue, Event::Appended) => next_frame(before, stop, after, action),
        (Phase::WritingPrologue, Event::AppendFailed { cause }) => {
            &&& stopped(before, after, action)
            &&& after.failure() == Some(ConversionError::EncoderInit { cause })
        },
        (Phase::ReadingFrame, Event::FrameRead { bytes }) => frame_taken(
            before,
            bytes@,
            after,
            action,
        ),
        (Phase::ReadingFrame, Event::FrameUnreadable { cause }) => {
            &&& wound_up(before, Ending::Failed, after, action)
            &&& closing(Seq::<u8>::empty(), after, action)
            &&& after.failure() == Some(ConversionError::ImageDecode { cause })
        },
        (Phase::WritingFrame, Event::Appended) => after_frame(before, stop, after, action),
        (Phase::WritingFrame, Event::AppendFailed { cause }) => {
            &&& stopped(before, after, action)
            &&& after.failure() == Some(
                ConversionError::Write { target: WriteTarget::Frame, cause },
            )
        },
        (Phase::Closing, _) | (Phase::Finished, _) => {
            &&& after.phase() == Phase::Finished
            &&& after.status() == before.status()
            &&& after.progress() == before.progress()
            &&& after.frames_written() == before.frames_written()
            &&& after.ending() == before.ending()
            &&& after.failure() == before.failure()
            &&& !after.encoding()
        },
        _ => abandoned(before, after, action),
    }
}

/// When the extraction tool exits with a status other than zero, the run is
/// over at once: the failure names the tool, no encoder is ever started, and
/// the only thing left to do is to release the scratch directory.
pub proof fn failed_extraction_ends_the_run(
    before: Conversion,
    cancel: bool,
    after: Conversion,
    action: Action,
)
    requires
        before.phase() == Phase::Extracting,
        follows(before, Event::ExtractorExited { success: false }, cancel, after, action),
    ensures
        action is Finish,
        after.phase() == Phase::Finished,
        after.ending() == Some(Ending::Failed),
        after.failure() matches Some(ConversionError::ExternalTool { tool, launch }) && tool@
            == extractor::program_text() && launch is None,
        after.failure() matches Some(error) && after.status() == error.status_text(),
        after.progress() == before.progress(),
        !after.encoding(),
{
}

/// When the extraction tool has left no frame behind, the run is over at
/// once: the failure says that nothing was found, and the scratch directory
/// is released like after any other run.
pub proof fn empty_extraction_ends_the_run(
    before: Conversion,
    paths: Vec<String>,
    cancel: bool,
    after: Conversion,
    action: Action,
)
    requires
        before.phase() == Phase::Listing,
        paths@.len() == 0,
        follows(before, Event::FramesListed { paths }, cancel, after, action),
    ensures
        action is Finish,
        after.phase() == Phase::Finished,
        after.ending() == Some(Ending::Failed),
        after.failure() matches Some(ConversionError::EmptyResult),
        after.failure() matches Some(error) && after.status() == error.status_text(),
        after.progress() == before.progress(),
        !after.encoding(),
{
}

/// A request to stop that has arrived by the time frame `k` of `n` is in the
/// output, with `k + 1 < n`, ends the run as cancelled: the status says so,
/// the percentage stays at the value of frame `k` and is not pushed to 100,
/// no further frame is read, and only the closing byte is still written.
pub proof fn cancellation_stops_after_the_frame(
    before: Conversion,
    cancel: bool,
    after: Conversion,
    action: Action,
)
    requires
        before.phase() == Phase::WritingFrame,
        before.cancel_seen() || cancel,
        before.frames_written() + 1 < before.frame_paths().len(),
        follows(before, Event::Appended, cancel, after, action),
    ensures
        after.status() == "Cancelled"@,
        after.ending() == Some(Ending::Cancelled),
        after.failure() is None,
        after.frames_written() == before.frames_written() + 1,
        after.progress() == progress_after(
            before.frames_written() as int,
            before.frame_paths().len() as int,
        ),
        !after.encoding(),
        after.phase() == Phase::Closing,
        action matches Action::Append { bytes } && bytes@ == trailer(),
{
    assert(Seq::<u8>::empty() + trailer() =~= trailer());
}

/// Until the opening bytes of the animation are in the output, no frame is
/// written and the percentage is zero; the run has no ending and no failure
/// yet, and an encoder is at work only while the opening bytes are written.
/// Before the frames are listed none is known, and from then on at least one.
pub proof fn nothing_is_written_before_the_frames(conversion: Conversion)
    requires
        conversion.wf(),
        conversion.phase() == Phase::AwaitingScratch || conversion.phase() == Phase::Extracting
            || conversion.phase() == Phase::Listing || conversion.phase() == Phase::Probing
            || conversion.phase() == Phase::OpeningOutput || conversion.phase()
            == Phase::WritingPrologue,
    ensures
        conversion.frames_written() == 0,
        conversion.progress() == 0,
        conversion.ending() is None,
        conversion.failure() is None,
        conversion.encoding() <==> conversion.phase() == Phase::WritingPrologue,
        conversion.frame_paths().len() == 0 <==> conversion.phase() == Phase::AwaitingScratch
            || conversion.phase() == Phase::Extracting || conversion.phase() == Phase::Listing,
{
}

/// While frames are read and written, the percentage is that of the last
/// frame whose bytes are in the output, and zero before the first.
pub proof fn progress_follows_the_frames(conversion: Conversion)
    requires
        conversion.wf(),
        conversion.phase() == Phase::ReadingFrame || conversion.phase() == Phase::WritingFrame,
    ensures
        conversion.frames_written() < conversion.frame_paths().len(),
        conversion.progress() == shown(
            conversion.frames_written() as int,
            conversion.frame_paths().len() as int,
        ),
{
}

/// Once a run has its ending, nothing more is read or written for it: each
/// further step leaves status, percentage and frame count alone and asks for
/// the scratch directory to be released.
pub proof fn ended_run_only_finishes(
    before: Conversion,
    event: Event,
    cancel: bool,
    after: Conversion,
    action: Action,
)
    requires
        before.wf(),
        before.ending() is Some,
        follows(before, event, cancel, after, action),
    ensures
        action is Finish,
        after.phase() == Phase::Finished,
        after.status() == before.status(),
        after.progress() == before.progress(),
        after.frames_written() == before.frames_written(),
        after.ending() == before.ending(),
        !after.encoding(),
{
}

/// While a run goes on, every frame that is asked for is the next one in
/// order: the frame read after `k` frames were written is the frame at
/// position `k`.
pub proof fn frames_are_read_in_order(
    before: Conversion,
    cancel: bool,
    after: Conversion,
    action: Action,
    path: String,
)
    requires
        before.phase() == Phase::WritingFrame || before.phase() == Phase::WritingPrologue,
        follows(before, Event::Appended, cancel, after, action),
        action == (Action::ReadFrame { path }),
    ensures
        after.frames_written() < before.frame_paths().len(),
        path@ == before.frame_paths()[after.frames_written() as int],
{
}

} // verus!
