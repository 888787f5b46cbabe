//! The pipeline context: the one object that both execution domains work
//! on, and the operations that callers, the generation worker and the
//! playback engine perform on it.

use crate::cancel::{CancelState, CancellationCoordinator, Stage};
use crate::engine::{engine_from_name, engine_of_name, streaming_engine, streaming_engine_of};
use crate::error::{ErrorView, TtsError};
use crate::model::{PipelineView, WorkerActionView, WorkerStepView};
use crate::playback::{PlaybackEffect, PlaybackEngine, PlaybackView};
use crate::preservation::{
    lemma_enqueue_wf, lemma_housekeeping_wf, lemma_initialize_wf, lemma_playback_step_wf,
    lemma_shutdown_wf, lemma_stop_wf, lemma_without_at, lemma_worker_generated_wf,
    lemma_worker_next_wf,
};
use crate::queue::GenerationQueue;
use crate::registry::TempFileRegistry;
use crate::request::{
    artifact_views, paths_of, request_views, ArtifactView, AudioArtifact, CommandView,
    PlaybackCommand, RequestView, SpeechRequest,
};
use crate::text::outcome_view;
use std::collections::VecDeque;
use vstd::prelude::*;
use vstd::string::StringExecFns;

verus! {

/// What the generation worker has to do next.
#[derive(Debug)]
pub enum WorkerStep {
    /// Nothing: the queue is empty, or a generation is running.
    Idle,
    /// The queue is closed for good: the worker ends.
    Closed,
    /// The stop level is raised: these requests were dropped unprocessed.
    Discarded(Vec<SpeechRequest>),
    /// Synthesize the request, which has this ticket.
    Generate(u64, SpeechRequest),
}

impl View for WorkerStep {
    type V = WorkerStepView;

    open spec fn view(&self) -> WorkerStepView {
        match self {
            WorkerStep::Idle => WorkerStepView::Idle,
            WorkerStep::Closed => WorkerStepView::Closed,
            WorkerStep::Discarded(dropped) => WorkerStepView::Discarded(request_views(dropped@)),
            WorkerStep::Generate(ticket, request) => WorkerStepView::Generate(*ticket, request@),
        }
    }
}

/// What the generation worker has to do with the outcome of a synthesis.
#[derive(Debug)]
pub enum WorkerAction {
    /// The artifact is registered and its `Play` command is issued.
    Play(AudioArtifact),
    /// Delete the file at this path: it is never played.
    Delete(String),
    /// Log the failure and go on with the next request.
    Report(TtsError),
}

impl View for WorkerAction {
    type V = WorkerActionView;

    open spec fn view(&self) -> WorkerActionView {
        match self {
            WorkerAction::Play(artifact) => WorkerActionView::Play(artifact@),
            WorkerAction::Delete(path) => WorkerActionView::Delete(path@),
            WorkerAction::Report(error) => WorkerActionView::Report(error@),
        }
    }
}

/// The answer to an operation that yields nothing, as plain values.
pub open spec fn answer_view(answer: Result<(), TtsError>) -> Result<(), ErrorView> {
    match answer {
        Ok(_) => Ok(()),
        Err(error) => Err(error@),
    }
}

/// The command that a playback engine receives, as plain values.
pub open spec fn command_view(command: Option<PlaybackCommand>) -> Option<CommandView> {
    match command {
        Some(c) => Some(c@),
        None => None,
    }
}

/// The state of one pipeline.
pub struct Pipeline {
    initialized: bool,
    device_ready: bool,
    queue: GenerationQueue,
    in_flight: Option<u64>,
    coordinator: CancellationCoordinator,
    registry: TempFileRegistry,
    commands: VecDeque<AudioArtifact>,
    playback: PlaybackEngine,
}

impl View for Pipeline {
    type V = PipelineView;

    closed spec fn view(&self) -> PipelineView {
        PipelineView {
            initialized: self.initialized,
            device_ready: self.device_ready,
            queue: self.queue@,
            in_flight: self.in_flight,
            cancel: self.coordinator@,
            registry: self.registry@,
            commands: artifact_views(self.commands@),
            playback: self.playback@,
        }
    }
}

impl Pipeline {
    /// A pipeline that has not been initialized.
    pub fn new() -> (pipeline: Self)
        ensures
            pipeline@ == PipelineView::unstarted(),
            pipeline@.wf(),
    {
        let pipeline = Pipeline {
            initialized: false,
            device_ready: false,
            queue: GenerationQueue::new(),
            in_flight: None,
            coordinator: CancellationCoordinator::new(),
            registry: TempFileRegistry::new(),
            commands: VecDeque::new(),
            playback: PlaybackEngine::new(),
        };
        assert(pipeline@.commands =~= Seq::<ArtifactView>::empty());
        assert(pipeline@.live() =~= Seq::<ArtifactView>::empty());
        assert(pipeline@.registry =~= paths_of(pipeline@.live()));
        pipeline
    }

    /// Releases every artifact that exists: the device's queue and the
    /// command queue are emptied, and so is the registry.
    fn purge(&mut self) -> (released: Vec<AudioArtifact>)
        ensures
            artifact_views(released@) == old(self)@.live(),
            final(self)@ == (PipelineView {
                registry: Seq::empty(),
                commands: Seq::empty(),
                playback: PlaybackView { sink: Seq::empty(), ..old(self)@.playback },
                ..old(self)@
            }),
    {
        let mut released = self.playback.release_all();
        while self.commands.len() > 0
            invariant
                artifact_views(released@) + artifact_views(self.commands@) == old(self)@.live(),
                self.playback@ == (PlaybackView { sink: Seq::empty(), ..old(self)@.playback }),
                self.initialized == old(self).initialized,
                self.device_ready == old(self).device_ready,
                self.queue == old(self).queue,
                self.in_flight == old(self).in_flight,
                self.coordinator == old(self).coordinator,
            decreases self.commands.len(),
        {
            let ghost before = artifact_views(self.commands@);
            let ghost released_before = artifact_views(released@);
            match self.commands.pop_front() {
                Some(artifact) => {
                    released.push(artifact);
                    assert(artifact_views(self.commands@) =~= before.drop_first());
                    assert(artifact_views(released@) =~= released_before.push(before[0]));
                    assert(artifact_views(released@) + artifact_views(self.commands@)
                        =~= released_before + before);
                },
                None => {},
            }
        }
        let _ = self.registry.drain();
        assert(artifact_views(self.commands@) =~= Seq::<ArtifactView>::empty());
        assert(artifact_views(released@) =~= artifact_views(released@) + artifact_views(
            self.commands@,
        ));
        released
    }

    /// The generation worker asks for work. It gets the oldest request,
    /// unless a generation is running, the queue is closed, or the stop
    /// level is raised: then the waiting requests are dropped unprocessed
    /// and the worker has acknowledged the stop.
    pub fn worker_next(&mut self) -> (step: WorkerStep)
        requires
            old(self)@.wf(),
        ensures
            final(self)@.wf(),
            (final(self)@, step@) == old(self)@.worker_next(),
    {
        proof {
            lemma_worker_next_wf(self@);
        }
        if !self.initialized || self.in_flight.is_some() {
            WorkerStep::Idle
        } else if self.queue.is_closed() {
            let _ = self.queue.discard_all();
            WorkerStep::Closed
        } else if self.coordinator.is_stopping() {
            let dropped = self.queue.discard_all();
            let _ = self.coordinator.acknowledge(Stage::Generation);
            WorkerStep::Discarded(dropped)
        } else {
            match self.queue.dequeue() {
                None => WorkerStep::Idle,
                Some((ticket, request)) => {
                    self.in_flight = Some(ticket);
                    WorkerStep::Generate(ticket, request)
                },
            }
        }
    }

    /// The generation worker reports the outcome of a synthesis: `Ok` with
    /// the path of the audio file, or `Err` with the backend's error. A file
    /// that came while the stop level was raised is to be deleted unplayed;
    /// a failure is to be logged, and the pipeline goes on.
    pub fn worker_generated(&mut self, outcome: Result<String, String>) -> (action: WorkerAction)
        requires
            old(self)@.wf(),
        ensures
            final(self)@.wf(),
            (final(self)@, action@) == old(self)@.worker_generated(outcome_view(outcome)),
    {
        proof {
            lemma_worker_generated_wf(self@, outcome_view(outcome));
        }
        let cancelling = !self.initialized || self.in_flight.is_none()
            || self.coordinator.is_stopping() || self.queue.is_closed();
        let in_flight = self.in_flight;
        self.in_flight = None;
        match outcome {
            Err(reason) => WorkerAction::Report(TtsError::AdapterFailure(reason)),
            Ok(path) => {
                if self.registry.contains(path.as_str()) {
                    WorkerAction::Report(
                        TtsError::AdapterFailure(
                            String::from_str("Synthesis returned a path that is still pending"),
                        ),
                    )
                } else if cancelling {
                    WorkerAction::Delete(path)
                } else {
                    let ticket = in_flight.unwrap();
                    let _ = self.registry.register(path.as_str());
                    let artifact = AudioArtifact { ticket, path };
                    self.commands.push_back(artifact.duplicate());
                    assert(artifact_views(self.commands@) =~= artifact_views(
                        old(self).commands@,
                    ).push(artifact@));
                    WorkerAction::Play(artifact)
                }
            },
        }
    }

    /// The command that the playback engine receives next, if any.
    pub fn next_command(&self) -> (command: Option<PlaybackCommand>)
        ensures
            command_view(command) == self@.next_command(),
    {
        if !self.initialized || self.playback.is_terminated() {
            None
        } else if self.queue.is_closed() {
            Some(PlaybackCommand::Shutdown)
        } else if self.coordinator.is_stopping() {
            if self.coordinator.has_drained(Stage::Playback) {
                None
            } else {
                Some(PlaybackCommand::Stop)
            }
        } else if self.device_ready && self.commands.len() > 0 {
            Some(PlaybackCommand::Play(self.commands[0].duplicate()))
        } else {
            None
        }
    }

    /// The playback engine carries out its next command, where `decoded`
    /// says whether the file of a `Play` could be opened and decoded. The
    /// effect says what to do with the device and which files to delete.
    pub fn playback_step(&mut self, decoded: bool) -> (effect: PlaybackEffect)
        requires
            old(self)@.wf(),
        ensures
            final(self)@.wf(),
            (final(self)@, effect@) == old(self)@.playback_step(decoded),
    {
        proof {
            lemma_playback_step_wf(self@, decoded);
        }
        if !self.initialized || self.playback.is_terminated() {
            PlaybackEffect::Idle
        } else if self.queue.is_closed() {
            let released = self.purge();
            let _ = self.playback.shutdown();
            PlaybackEffect::Terminated(released)
        } else if self.coordinator.is_stopping() {
            if self.coordinator.has_drained(Stage::Playback) {
                PlaybackEffect::Idle
            } else {
                let released = self.purge();
                let _ = self.coordinator.acknowledge(Stage::Playback);
                PlaybackEffect::Cleared(released)
            }
        } else if self.device_ready {
            match self.commands.pop_front() {
                None => PlaybackEffect::Idle,
                Some(artifact) => {
                    assert(artifact_views(self.commands@) =~= artifact_views(
                        old(self).commands@,
                    ).drop_first());
                    let effect = self.playback.play(artifact, decoded);
                    match &effect {
                        PlaybackEffect::Dropped(dropped, _) => {
                            let _ = self.registry.release(dropped.path.as_str());
                        },
                        _ => {},
                    }
                    effect
                },
            }
        } else {
            PlaybackEffect::Idle
        }
    }

    /// The periodic poll of the playback engine, where `device_idle` says
    /// whether the device's queue has run empty. Returns the artifacts whose
    /// playback has finished: their files are to be deleted.
    pub fn housekeeping(&mut self, device_idle: bool) -> (released: Vec<AudioArtifact>)
        requires
            old(self)@.wf(),
        ensures
            final(self)@.wf(),
            (final(self)@, artifact_views(released@)) == old(self)@.housekeeping(device_idle),
    {
        proof {
            lemma_housekeeping_wf(self@, device_idle);
        }
        let released = self.playback.housekeeping(device_idle);
        let ghost swept = self@;
        assert(self@.registry =~= old(self)@.registry.skip(0));
        let mut k: usize = 0;
        while k < released.len()
            invariant
                k <= released.len(),
                released.len() <= old(self)@.registry.len(),
                old(self)@.registry.no_duplicates(),
                forall|i: int|
                    0 <= i < released.len() ==> old(self)@.registry[i] == (
                    #[trigger] released@[i])@.path,
                self.registry.wf(),
                self@ == (PipelineView { registry: old(self)@.registry.skip(k as int), ..swept }),
            decreases released.len() - k,
        {
            proof {
                lemma_without_at(self.registry@, 0);
                assert(self.registry@[0] == old(self)@.registry[k as int]);
                assert(self.registry@.remove(0) =~= old(self)@.registry.skip(k as int + 1));
            }
            let _ = self.registry.release(released[k].path.as_str());
            k = k + 1;
        }
        released
    }

    /// Whether the pipeline has been initialized.
    pub fn is_initialized(&self) -> (initialized: bool)
        ensures
            initialized == self@.initialized,
    {
        self.initialized
    }

    /// The state of the cancellation coordinator.
    pub fn cancel_state(&self) -> (state: CancelState)
        ensures
            state == self@.cancel.state(),
    {
        self.coordinator.state()
    }

    /// The number of files that exist and are not yet deleted.
    pub fn pending_files(&self) -> (n: usize)
        ensures
            n == self@.registry.len(),
    {
        self.registry.len()
    }

    /// The number of requests that wait for the generation worker.
    pub fn queued_requests(&self) -> (n: usize)
        ensures
            n == self@.queue.items.len(),
    {
        self.queue.len()
    }
}

/// Initializes the pipeline, where `device_ready` says whether the audio
/// device could be opened. A second call changes nothing. Where the device
/// could not be opened the answer is `DeviceInitFailure`: the pipeline
/// still generates, and nothing will be played.
pub fn init_audio_player(pipeline: &mut Pipeline, device_ready: bool) -> (answer: Result<(), TtsError>)
    requires
        old(pipeline)@.wf(),
    ensures
        final(pipeline)@.wf(),
        (final(pipeline)@, answer_view(answer)) == old(pipeline)@.initialize(device_ready),
{
    proof {
        lemma_initialize_wf(pipeline@, device_ready);
    }
    if !pipeline.initialized {
        pipeline.initialized = true;
        pipeline.device_ready = device_ready;
    }
    if pipeline.device_ready {
        Ok(())
    } else {
        Err(TtsError::DeviceInitFailure)
    }
}

/// Queues a sentence for synthesis and playback, behind every sentence
/// queued before. The answer is `QueueUninitialized` before initialization,
/// `QueueClosed` after shutdown, and `QueueFull` while the queue is at its
/// capacity: then the caller waits and asks again.
pub fn speak_sentence(
    pipeline: &mut Pipeline,
    text: &str,
    voice: &str,
    speed_permille: u32,
    engine: &str,
) -> (answer: Result<(), TtsError>)
    requires
        old(pipeline)@.wf(),
    ensures
        final(pipeline)@.wf(),
        (final(pipeline)@, answer_view(answer)) == old(pipeline)@.enqueue(
            RequestView {
                text: text@,
                voice: voice@,
                speed_permille,
                engine: streaming_engine_of(engine@),
            },
        ),
{
    let request = SpeechRequest::new(text, voice, speed_permille, streaming_engine(engine));
    proof {
        lemma_enqueue_wf(pipeline@, request@);
    }
    if !pipeline.initialized {
        Err(TtsError::QueueUninitialized)
    } else {
        pipeline.queue.enqueue(request)
    }
}

/// Stops the speech: raises the stop level, which both stages observe. The
/// call returns once the stop is issued, not once it has taken effect.
pub fn clear_audio_queue(pipeline: &mut Pipeline) -> (answer: Result<(), TtsError>)
    requires
        old(pipeline)@.wf(),
    ensures
        final(pipeline)@.wf(),
        final(pipeline)@ == old(pipeline)@.stop(),
        answer is Ok,
{
    proof {
        lemma_stop_wf(pipeline@);
    }
    if pipeline.initialized && !pipeline.queue.is_closed() {
        let _ = pipeline.coordinator.request_stop();
    }
    Ok(())
}

/// Shuts the pipeline down: the queue is closed for good and every file
/// that exists is released. Returns the artifacts whose files the caller
/// deletes before the process ends. A second call finds nothing to do.
pub fn shutdown_audio_player(pipeline: &mut Pipeline) -> (released: Vec<AudioArtifact>)
    requires
        old(pipeline)@.wf(),
    ensures
        final(pipeline)@.wf(),
        (final(pipeline)@, artifact_views(released@)) == old(pipeline)@.shutdown(),
{
    proof {
        lemma_shutdown_wf(pipeline@);
    }
    let released = pipeline.purge();
    let _ = pipeline.queue.discard_all();
    pipeline.queue.close();
    released
}

/// Prepares a single utterance that is spoken to its end outside the
/// queue: whatever is being spoken is stopped first, and the answer is the
/// request to synthesize, or `UnknownEngine` for a name outside the set.
pub fn speak(
    pipeline: &mut Pipeline,
    text: &str,
    engine: &str,
    voice: &str,
    speed_permille: u32,
) -> (answer: Result<SpeechRequest, TtsError>)
    requires
        old(pipeline)@.wf(),
    ensures
        final(pipeline)@.wf(),
        final(pipeline)@ == old(pipeline)@.stop(),
        match engine_of_name(engine@) {
            Some(found) => answer matches Ok(request) && request@ == (RequestView {
                text: text@,
                voice: voice@,
                speed_permille,
                engine: found,
            }),
            None => answer matches Err(error) && error@ == ErrorView::UnknownEngine(engine@),
        },
{
    let _ = clear_audio_queue(pipeline);
    match engine_from_name(engine) {
        Some(found) => Ok(SpeechRequest::new(text, voice, speed_permille, found)),
        None => Err(TtsError::UnknownEngine(engine.to_owned())),
    }
}

} // verus!
