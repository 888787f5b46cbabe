//! The values that travel through the pipeline: requests, audio artifacts
//! and the commands of the playback engine.

use crate::engine::Engine;
use vstd::prelude::*;

verus! {

/// One sentence to be spoken. It does not change once it is enqueued.
#[derive(Debug)]
pub struct SpeechRequest {
    /// The sentence.
    pub text: String,
    /// The voice, as the backend names it.
    pub voice: String,
    /// The speaking rate in thousandths of the natural rate.
    pub speed_permille: u32,
    /// The backend that synthesizes the sentence.
    pub engine: Engine,
}

/// What a `SpeechRequest` holds, as plain values.
pub struct RequestView {
    pub text: Seq<char>,
    pub voice: Seq<char>,
    pub speed_permille: u32,
    pub engine: Engine,
}

impl View for SpeechRequest {
    type V = RequestView;

    open spec fn view(&self) -> RequestView {
        RequestView {
            text: self.text@,
            voice: self.voice@,
            speed_permille: self.speed_permille,
            engine: self.engine,
        }
    }
}

impl SpeechRequest {
    /// A request for `text` in `voice` at `speed_permille` by `engine`.
    pub fn new(text: &str, voice: &str, speed_permille: u32, engine: Engine) -> (request: Self)
        ensures
            request@ == (RequestView { text: text@, voice: voice@, speed_permille, engine }),
    {
        SpeechRequest { text: text.to_owned(), voice: voice.to_owned(), speed_permille, engine }
    }

    /// A copy of the request.
    pub fn duplicate(&self) -> (copy: Self)
        ensures
            copy@ == self@,
    {
        SpeechRequest {
            text: self.text.clone(),
            voice: self.voice.clone(),
            speed_permille: self.speed_permille,
            engine: self.engine,
        }
    }
}

/// The views of a sequence of requests, in order.
pub open spec fn request_views(requests: Seq<SpeechRequest>) -> Seq<RequestView> {
    requests.map_values(|r: SpeechRequest| r@)
}

/// An audio file that a backend has written for one request.
#[derive(Debug)]
pub struct AudioArtifact {
    /// The position of the request in the order of enqueueing.
    pub ticket: u64,
    /// Where the file is.
    pub path: String,
}

/// What an `AudioArtifact` holds, as plain values.
pub struct ArtifactView {
    pub ticket: u64,
    pub path: Seq<char>,
}

impl View for AudioArtifact {
    type V = ArtifactView;

    open spec fn view(&self) -> ArtifactView {
        ArtifactView { ticket: self.ticket, path: self.path@ }
    }
}

impl AudioArtifact {
    /// A copy of the artifact.
    pub fn duplicate(&self) -> (copy: Self)
        ensures
            copy@ == self@,
    {
        AudioArtifact { ticket: self.ticket, path: self.path.clone() }
    }
}

/// The views of a sequence of artifacts, in order.
pub open spec fn artifact_views(artifacts: Seq<AudioArtifact>) -> Seq<ArtifactView> {
    artifacts.map_values(|a: AudioArtifact| a@)
}

/// The paths of a sequence of artifacts, in order.
pub open spec fn paths_of(artifacts: Seq<ArtifactView>) -> Seq<Seq<char>> {
    artifacts.map_values(|a: ArtifactView| a.path)
}

/// The tickets of a sequence of artifacts, in order.
pub open spec fn tickets_of(artifacts: Seq<ArtifactView>) -> Seq<u64> {
    artifacts.map_values(|a: ArtifactView| a.ticket)
}

/// What the playback engine is told to do.
#[derive(Debug)]
pub enum PlaybackCommand {
    /// Decode the artifact and append it to the device's queue.
    Play(AudioArtifact),
    /// Clear the device's queue and release what is pending.
    Stop,
    /// Stop the device for good.
    Shutdown,
}

/// What a `PlaybackCommand` holds, as plain values.
pub enum CommandView {
    Play(ArtifactView),
    Stop,
    Shutdown,
}

impl View for PlaybackCommand {
    type V = CommandView;

    open spec fn view(&self) -> CommandView {
        match self {
            PlaybackCommand::Play(artifact) => CommandView::Play(artifact@),
            PlaybackCommand::Stop => CommandView::Stop,
            PlaybackCommand::Shutdown => CommandView::Shutdown,
        }
    }
}

} // verus!
