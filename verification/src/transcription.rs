//! Results of speech recognition and the state of a recording session.
//!
//! Fractional quantities are carried as IEEE-754 bit patterns: a confidence
//! as the 32 bits of a single, times as the 64 bits of a double.

use vstd::prelude::*;
use crate::clock::{millis_since_epoch, spec_timestamp_secs, timestamp_secs};

verus! {

/// Mathematical content of a [`Transcription`].
pub struct TranscriptionView {
    pub text: Seq<char>,
    pub is_final: bool,
    pub confidence: Option<u32>,
    pub language: Option<Seq<char>>,
    pub timestamp: i64,
    pub start: u64,
    pub duration: u64,
}

/// One result of speech recognition, partial or final.
#[derive(Debug, Clone)]
pub struct Transcription {
    /// The recognised text.
    pub text: String,
    /// Whether the result is committed, as opposed to still being revised.
    pub is_final: bool,
    /// Confidence between 0.0 and 1.0, as the bits of a single, if known.
    pub confidence: Option<u32>,
    /// Language tag, if known.
    pub language: Option<String>,
    /// Creation instant, seconds since the Unix epoch.
    pub timestamp: i64,
    /// Offset of the segment in the audio stream in seconds, as the bits of
    /// a double.
    pub start: u64,
    /// Length of the segment in seconds, as the bits of a double.
    pub duration: u64,
}

impl View for Transcription {
    type V = TranscriptionView;

    open spec fn view(&self) -> TranscriptionView {
        TranscriptionView {
            text: self.text@,
            is_final: self.is_final,
            confidence: self.confidence,
            language: match self.language {
                Some(l) => Some(l@),
                None => None,
            },
            timestamp: self.timestamp,
            start: self.start,
            duration: self.duration,
        }
    }
}

impl TranscriptionView {
    /// A bare result: no confidence, no language, timing 0.0 and 0.0.
    pub open spec fn bare(text: Seq<char>, is_final: bool, timestamp: i64) -> TranscriptionView {
        TranscriptionView {
            text,
            is_final,
            confidence: None,
            language: None,
            timestamp,
            start: 0,
            duration: 0,
        }
    }
}

impl Transcription {
    /// A bare result created at the clock reading `elapsed` (milliseconds
    /// since the Unix epoch, `None` for a clock before it).
    pub fn stamped(text: String, is_final: bool, elapsed: Option<u128>) -> (t: Self)
        ensures
            t@ == TranscriptionView::bare(text@, is_final, spec_timestamp_secs(elapsed)),
    {
        Transcription {
            text,
            is_final,
            confidence: None,
            language: None,
            timestamp: timestamp_secs(elapsed),
            start: 0,
            duration: 0,
        }
    }

    /// A bare result created now.
    pub fn new(text: String, is_final: bool) -> (t: Self)
        ensures
            t@ == TranscriptionView::bare(text@, is_final, t.timestamp),
    {
        Transcription::stamped(text, is_final, millis_since_epoch())
    }

    /// The same result with the confidence set.
    pub fn with_confidence(self, confidence: u32) -> (t: Self)
        ensures
            t@ == (TranscriptionView { confidence: Some(confidence), ..self@ }),
    {
        let mut t = self;
        t.confidence = Some(confidence);
        t
    }

    /// The same result with the language set.
    pub fn with_language(self, language: String) -> (t: Self)
        ensures
            t@ == (TranscriptionView { language: Some(language@), ..self@ }),
    {
        let mut t = self;
        t.language = Some(language);
        t
    }

    /// The same result with the segment's offset and length set.
    pub fn with_timing(self, start: u64, duration: u64) -> (t: Self)
        ensures
            t@ == (TranscriptionView { start, duration, ..self@ }),
    {
        let mut t = self;
        t.start = start;
        t.duration = duration;
        t
    }

    /// A bare partial result created now.
    pub fn partial(text: String) -> (t: Self)
        ensures
            t@ == TranscriptionView::bare(text@, false, t.timestamp),
    {
        Transcription::new(text, false)
    }

    /// A bare final result created now.
    pub fn final_result(text: String) -> (t: Self)
        ensures
            t@ == TranscriptionView::bare(text@, true, t.timestamp),
    {
        Transcription::new(text, true)
    }
}

/// State of the recording session as the orchestrating layer sees it.
#[derive(Debug, Clone, Copy, PartialEq, Eq, Structural)]
pub enum RecordingStatus {
    /// No session.
    Idle,
    /// The session is being set up.
    Starting,
    /// Chunks are flowing.
    Recording,
    /// Capture has stopped; trailing results are still coming in.
    Processing,
    /// The session was aborted.
    Error,
}

impl Default for RecordingStatus {
    fn default() -> (status: Self)
        ensures
            status == RecordingStatus::Idle,
    {
        RecordingStatus::Idle
    }
}

} // verus!
