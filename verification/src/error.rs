//! The ways in which an operation of the pipeline can fail.

use vstd::prelude::*;
use vstd::string::StringExecFns;

verus! {

/// A failure of one operation. None of them ends the pipeline.
#[derive(Debug)]
pub enum TtsError {
    /// An operation came before the pipeline was initialized.
    QueueUninitialized,
    /// The generation queue is closed for good.
    QueueClosed,
    /// The generation queue is full: the caller waits and asks again.
    QueueFull,
    /// The synthesis backend could not be reached or refused the input.
    AdapterFailure(String),
    /// The audio output device could not be opened.
    DeviceInitFailure,
    /// An audio file could not be decoded.
    DecodeFailure,
    /// Work in flight was stopped on request.
    Cancelled,
    /// The engine name denotes no engine.
    UnknownEngine(String),
}

/// What a `TtsError` holds, as plain text.
pub enum ErrorView {
    QueueUninitialized,
    QueueClosed,
    QueueFull,
    AdapterFailure(Seq<char>),
    DeviceInitFailure,
    DecodeFailure,
    Cancelled,
    UnknownEngine(Seq<char>),
}

impl View for TtsError {
    type V = ErrorView;

    open spec fn view(&self) -> ErrorView {
        match self {
            TtsError::QueueUninitialized => ErrorView::QueueUninitialized,
            TtsError::QueueClosed => ErrorView::QueueClosed,
            TtsError::QueueFull => ErrorView::QueueFull,
            TtsError::AdapterFailure(reason) => ErrorView::AdapterFailure(reason@),
            TtsError::DeviceInitFailure => ErrorView::DeviceInitFailure,
            TtsError::DecodeFailure => ErrorView::DecodeFailure,
            TtsError::Cancelled => ErrorView::Cancelled,
            TtsError::UnknownEngine(name) => ErrorView::UnknownEngine(name@),
        }
    }
}

/// The text that describes an error.
pub open spec fn message_of(error: ErrorView) -> Seq<char> {
    match error {
        ErrorView::QueueUninitialized => "Audio player not initialized"@,
        ErrorView::QueueClosed => "Failed to queue task: channel closed"@,
        ErrorView::QueueFull => "Generation queue is full"@,
        ErrorView::AdapterFailure(reason) => reason,
        ErrorView::DeviceInitFailure => "Failed to open audio output device"@,
        ErrorView::DecodeFailure => "Failed to decode audio"@,
        ErrorView::Cancelled => "cancelled"@,
        ErrorView::UnknownEngine(name) => "Unknown TTS engine: "@ + name,
    }
}

impl TtsError {
    /// Whether the error is a real failure. A cancellation is an expected
    /// outcome and a full queue only asks the caller to wait: neither is to
    /// be logged as a failure.
    pub open spec fn spec_is_failure(&self) -> bool {
        !(self@ is Cancelled) && !(self@ is QueueFull)
    }

    /// Whether the error is a real failure, as opposed to a cancellation or
    /// a full queue.
    #[verifier::when_used_as_spec(spec_is_failure)]
    pub fn is_failure(&self) -> (failure: bool)
        ensures
            failure == self.spec_is_failure(),
    {
        match self {
            TtsError::Cancelled => false,
            TtsError::QueueFull => false,
            _ => true,
        }
    }

    /// The text that describes the error.
    pub fn message(&self) -> (text: String)
        ensures
            text@ == message_of(self@),
    {
        match self {
            TtsError::QueueUninitialized => String::from_str("Audio player not initialized"),
            TtsError::QueueClosed => String::from_str("Failed to queue task: channel closed"),
            TtsError::QueueFull => String::from_str("Generation queue is full"),
            TtsError::AdapterFailure(reason) => reason.clone(),
            TtsError::DeviceInitFailure => String::from_str("Failed to open audio output device"),
            TtsError::DecodeFailure => String::from_str("Failed to decode audio"),
            TtsError::Cancelled => String::from_str("cancelled"),
            TtsError::UnknownEngine(name) => {
                let mut text = String::from_str("Unknown TTS engine: ");
                text.append(name.as_str());
                text
            },
        }
    }
}

} // verus!
