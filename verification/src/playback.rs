//! The playback engine: what it remembers of the audio device's queue, and
//! what each command does to it.

use crate::error::{ErrorView, TtsError};
use crate::request::{artifact_views, ArtifactView, AudioArtifact, CommandView, PlaybackCommand};
use vstd::prelude::*;

verus! {

/// The longest that the playback engine waits for a command before it
/// polls the device, in milliseconds.
pub const POLL_INTERVAL_MS: u64 = 100;

/// What the playback engine holds: the artifacts appended to the device's
/// queue and not yet released, oldest first, and whether the engine has
/// been shut down.
pub struct PlaybackView {
    pub sink: Seq<ArtifactView>,
    pub terminated: bool,
}

/// What the owner of the audio device has to do after a command.
#[derive(Debug)]
pub enum PlaybackEffect {
    /// Nothing.
    Idle,
    /// Append the decoded audio of the artifact to the device's queue.
    Appended(AudioArtifact),
    /// Delete the artifact's file; it is not played, for the reason given.
    Dropped(AudioArtifact, TtsError),
    /// Clear the device's queue and delete the files of these artifacts.
    Cleared(Vec<AudioArtifact>),
    /// Stop the device for good and delete the files of these artifacts.
    Terminated(Vec<AudioArtifact>),
}

/// What a `PlaybackEffect` holds, as plain values.
pub enum EffectView {
    Idle,
    Appended(ArtifactView),
    Dropped(ArtifactView, ErrorView),
    Cleared(Seq<ArtifactView>),
    Terminated(Seq<ArtifactView>),
}

impl View for PlaybackEffect {
    type V = EffectView;

    open spec fn view(&self) -> EffectView {
        match self {
            PlaybackEffect::Idle => EffectView::Idle,
            PlaybackEffect::Appended(artifact) => EffectView::Appended(artifact@),
            PlaybackEffect::Dropped(artifact, reason) => EffectView::Dropped(artifact@, reason@),
            PlaybackEffect::Cleared(released) => EffectView::Cleared(artifact_views(released@)),
            PlaybackEffect::Terminated(released) => EffectView::Terminated(
                artifact_views(released@),
            ),
        }
    }
}

impl EffectView {
    /// The artifacts whose files the effect has deleted, in order.
    pub open spec fn released(self) -> Seq<ArtifactView> {
        match self {
            EffectView::Idle => Seq::empty(),
            EffectView::Appended(_) => Seq::empty(),
            EffectView::Dropped(artifact, _) => seq![artifact],
            EffectView::Cleared(released) => released,
            EffectView::Terminated(released) => released,
        }
    }

    /// The artifact that the effect hands to the device, if any.
    pub open spec fn appended(self) -> Option<ArtifactView> {
        match self {
            EffectView::Appended(artifact) => Some(artifact),
            _ => None,
        }
    }
}

impl PlaybackView {
    /// An engine that has played nothing.
    pub open spec fn fresh() -> PlaybackView {
        PlaybackView { sink: Seq::empty(), terminated: false }
    }

    /// The engine and the effect after `Play(artifact)`, where `decoded`
    /// says whether the file could be opened and decoded.
    pub open spec fn played(self, artifact: ArtifactView, decoded: bool) -> (
        PlaybackView,
        EffectView,
    ) {
        if self.terminated {
            (self, EffectView::Dropped(artifact, ErrorView::Cancelled))
        } else if decoded {
            (
                PlaybackView { sink: self.sink.push(artifact), ..self },
                EffectView::Appended(artifact),
            )
        } else {
            (self, EffectView::Dropped(artifact, ErrorView::DecodeFailure))
        }
    }

    /// The engine and the effect after `Stop`.
    pub open spec fn stopped(self) -> (PlaybackView, EffectView) {
        if self.terminated {
            (self, EffectView::Idle)
        } else {
            (PlaybackView { sink: Seq::empty(), ..self }, EffectView::Cleared(self.sink))
        }
    }

    /// The engine and the effect after `Shutdown`.
    pub open spec fn shut_down(self) -> (PlaybackView, EffectView) {
        if self.terminated {
            (self, EffectView::Idle)
        } else {
            (
                PlaybackView { sink: Seq::empty(), terminated: true },
                EffectView::Terminated(self.sink),
            )
        }
    }

    /// The engine and the effect after `command`.
    pub open spec fn handled(self, command: CommandView, decoded: bool) -> (
        PlaybackView,
        EffectView,
    ) {
        match command {
            CommandView::Play(artifact) => self.played(artifact, decoded),
            CommandView::Stop => self.stopped(),
            CommandView::Shutdown => self.shut_down(),
        }
    }

    /// The engine and the released artifacts after a housekeeping poll,
    /// where `device_idle` says whether the device's queue has run empty.
    pub open spec fn swept(self, device_idle: bool) -> (PlaybackView, Seq<ArtifactView>) {
        if device_idle && !self.terminated {
            (PlaybackView { sink: Seq::empty(), ..self }, self.sink)
        } else {
            (self, Seq::empty())
        }
    }
}

/// The bookkeeping of the playback engine. The audio device itself belongs
/// to the caller, which carries out the effect that each call returns.
pub struct PlaybackEngine {
    sink: Vec<AudioArtifact>,
    terminated: bool,
}

impl View for PlaybackEngine {
    type V = PlaybackView;

    closed spec fn view(&self) -> PlaybackView {
        PlaybackView { sink: artifact_views(self.sink@), terminated: self.terminated }
    }
}

impl PlaybackEngine {
    /// An engine that has played nothing.
    pub fn new() -> (engine: Self)
        ensures
            engine@ == PlaybackView::fresh(),
    {
        let engine = PlaybackEngine { sink: Vec::new(), terminated: false };
        assert(engine@.sink =~= Seq::<ArtifactView>::empty());
        engine
    }

    /// Whether the engine has been shut down.
    pub fn is_terminated(&self) -> (terminated: bool)
        ensures
            terminated == self@.terminated,
    {
        self.terminated
    }

    /// The number of artifacts appended to the device and not yet released.
    pub fn pending(&self) -> (n: usize)
        ensures
            n == self@.sink.len(),
    {
        self.sink.len()
    }

    /// Forgets every pending artifact and hands them out, oldest first.
    pub fn release_all(&mut self) -> (released: Vec<AudioArtifact>)
        ensures
            artifact_views(released@) == old(self)@.sink,
            final(self)@ == (PlaybackView { sink: Seq::empty(), ..old(self)@ }),
    {
        let mut released: Vec<AudioArtifact> = Vec::new();
        std::mem::swap(&mut self.sink, &mut released);
        assert(self@.sink =~= Seq::<ArtifactView>::empty());
        released
    }

    /// `Play`: a decoded artifact joins the device's queue and is pending
    /// release; one that could not be decoded is dropped.
    pub fn play(&mut self, artifact: AudioArtifact, decoded: bool) -> (effect: PlaybackEffect)
        ensures
            (final(self)@, effect@) == old(self)@.played(artifact@, decoded),
    {
        if self.terminated {
            PlaybackEffect::Dropped(artifact, TtsError::Cancelled)
        } else if decoded {
            let copy = artifact.duplicate();
            self.sink.push(artifact);
            assert(self@.sink =~= old(self)@.sink.push(artifact@));
            PlaybackEffect::Appended(copy)
        } else {
            PlaybackEffect::Dropped(artifact, TtsError::DecodeFailure)
        }
    }

    /// `Stop`: the device's queue is cleared and every pending artifact is
    /// released.
    pub fn stop(&mut self) -> (effect: PlaybackEffect)
        ensures
            (final(self)@, effect@) == old(self)@.stopped(),
    {
        if self.terminated {
            PlaybackEffect::Idle
        } else {
            PlaybackEffect::Cleared(self.release_all())
        }
    }

    /// `Shutdown`: the device stops, every pending artifact is released,
    /// and the engine does not resume. A second shutdown does nothing.
    pub fn shutdown(&mut self) -> (effect: PlaybackEffect)
        ensures
            (final(self)@, effect@) == old(self)@.shut_down(),
    {
        if self.terminated {
            PlaybackEffect::Idle
        } else {
            let released = self.release_all();
            self.terminated = true;
            PlaybackEffect::Terminated(released)
        }
    }

    /// Carries out one command.
    pub fn handle(&mut self, command: PlaybackCommand, decoded: bool) -> (effect: PlaybackEffect)
        ensures
            (final(self)@, effect@) == old(self)@.handled(command@, decoded),
    {
        match command {
            PlaybackCommand::Play(artifact) => self.play(artifact, decoded),
            PlaybackCommand::Stop => self.stop(),
            PlaybackCommand::Shutdown => self.shutdown(),
        }
    }

    /// The periodic poll: once the device's queue has run empty, every
    /// pending artifact has been played and is released.
    pub fn housekeeping(&mut self, device_idle: bool) -> (released: Vec<AudioArtifact>)
        ensures
            (final(self)@, artifact_views(released@)) == old(self)@.swept(device_idle),
    {
        if device_idle && !self.terminated {
            self.release_all()
        } else {
            let released: Vec<AudioArtifact> = Vec::new();
            assert(artifact_views(released@) =~= Seq::<ArtifactView>::empty());
            released
        }
    }
}

} // verus!
