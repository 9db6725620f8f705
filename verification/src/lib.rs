//! Core of an embeddable media player: a playback state machine with an
//! elapsed-time stopwatch, a generation-based cancellation protocol for the
//! audio worker, and an ordered progress protocol for transcription runs.
//!
//! The host user interface polls a [`player::Player`] once per frame and never
//! blocks; audio output and speech recognition run elsewhere and are reached
//! only through the cancellation flag and the progress events modelled here.
//! All durations and positions are carried as whole milliseconds.
use vstd::prelude::*;

verus! {

/// Coarse classification of a media source, derived once at construction from
/// the file extension or the sniffed content type; it decides which control
/// surfaces are legal.
#[derive(Debug, Copy, Clone, PartialEq, Eq, Structural)]
pub enum MediaType {
    Audio,
    Video,
    Error,
}

/// How the media source is handed in: a filesystem path, or an in-memory
/// byte buffer for embedding without a filesystem.
#[derive(Debug, Clone)]
pub enum InputMode {
    FilePath(String),
    Bytes(Vec<u8>),
}

/// Whether transcription is offered, and how transcript text is rendered.
#[derive(Debug, Copy, Clone, PartialEq, Eq, Structural)]
pub enum TranscriptionSettings {
    Disabled,
    Allow,
    TranscriptLabel,
    ShowTimeStamps,
}

/// Mathematical value of an [`InputMode`].
pub ghost enum InputModeView {
    FilePath(Seq<char>),
    Bytes(Seq<u8>),
}

impl View for InputMode {
    type V = InputModeView;

    open spec fn view(&self) -> InputModeView {
        match self {
            InputMode::FilePath(p) => InputModeView::FilePath(p@),
            InputMode::Bytes(b) => InputModeView::Bytes(b@),
        }
    }
}

/// Where the speech-recognition model may be stored; passed through opaquely.
#[derive(Debug, Clone)]
pub enum ModelPath {
    Default,
    Custom(String),
}

/// One transcribed segment: a piece of text and the absolute time at which it
/// starts, in milliseconds from the beginning of the media.
#[derive(Debug)]
pub struct TranscriptionData {
    pub text: String,
    pub time: u64,
}

/// Mathematical value of a [`TranscriptionData`].
pub ghost struct TranscriptionDataView {
    pub text: Seq<char>,
    pub time: u64,
}

impl View for TranscriptionData {
    type V = TranscriptionDataView;

    open spec fn view(&self) -> TranscriptionDataView {
        TranscriptionDataView { text: self.text@, time: self.time }
    }
}

impl Clone for TranscriptionData {
    fn clone(&self) -> (r: Self)
        ensures
            r@ == self@,
    {
        TranscriptionData { text: self.text.clone(), time: self.time }
    }
}

impl PartialEq for TranscriptionData {
    fn eq(&self, other: &Self) -> (r: bool) {
        self.text == other.text && self.time == other.time
    }
}

impl vstd::std_specs::cmp::PartialEqSpecImpl for TranscriptionData {
    open spec fn obeys_eq_spec() -> bool {
        true
    }

    open spec fn eq_spec(&self, other: &Self) -> bool {
        self@ == other@
    }
}

/// One event of a transcription run's progress stream.
///
/// A run emits `InProgress` and `Reading` events in order and ends with
/// exactly one `Finished`; `NoProgress` is the consumer's state before any
/// run has started.
#[derive(Debug)]
pub enum TranscriptionProgress {
    NoProgress,
    InProgress(TranscriptionData),
    Reading,
    Finished,
}

/// Mathematical value of a [`TranscriptionProgress`].
pub ghost enum TranscriptionProgressView {
    NoProgress,
    InProgress(TranscriptionDataView),
    Reading,
    Finished,
}

impl View for TranscriptionProgress {
    type V = TranscriptionProgressView;

    open spec fn view(&self) -> TranscriptionProgressView {
        match self {
            TranscriptionProgress::NoProgress => TranscriptionProgressView::NoProgress,
            TranscriptionProgress::InProgress(d) => TranscriptionProgressView::InProgress(d@),
            TranscriptionProgress::Reading => TranscriptionProgressView::Reading,
            TranscriptionProgress::Finished => TranscriptionProgressView::Finished,
        }
    }
}

impl Clone for TranscriptionProgress {
    fn clone(&self) -> (r: Self)
        ensures
            r@ == self@,
    {
        match self {
            TranscriptionProgress::NoProgress => TranscriptionProgress::NoProgress,
            TranscriptionProgress::InProgress(d) => TranscriptionProgress::InProgress(d.clone()),
            TranscriptionProgress::Reading => TranscriptionProgress::Reading,
            TranscriptionProgress::Finished => TranscriptionProgress::Finished,
        }
    }
}

impl PartialEq for TranscriptionProgress {
    fn eq(&self, other: &Self) -> (r: bool) {
        match (self, other) {
            (TranscriptionProgress::NoProgress, TranscriptionProgress::NoProgress) => true,
            (TranscriptionProgress::InProgress(a), TranscriptionProgress::InProgress(b)) => a == b,
            (TranscriptionProgress::Reading, TranscriptionProgress::Reading) => true,
            (TranscriptionProgress::Finished, TranscriptionProgress::Finished) => true,
            _ => false,
        }
    }
}

impl vstd::std_specs::cmp::PartialEqSpecImpl for TranscriptionProgress {
    open spec fn obeys_eq_spec() -> bool {
        true
    }

    open spec fn eq_spec(&self, other: &Self) -> bool {
        self@ == other@
    }
}

} // verus!

pub mod media_information;
pub mod player;
