//! The pipeline as a state machine over plain values: the state, and what
//! each operation makes of it.

use crate::cancel::{CoordinatorView, Stage};
use crate::error::ErrorView;
use crate::playback::{EffectView, PlaybackView};
use crate::queue::QueueView;
use crate::registry::without;
use crate::request::{paths_of, ArtifactView, CommandView, RequestView};
use vstd::prelude::*;

verus! {

/// What the generation worker has to do next.
pub enum WorkerStepView {
    /// Nothing: the queue is empty, or a generation is running.
    Idle,
    /// The queue is closed for good: the worker ends.
    Closed,
    /// The stop level is raised: these requests were dropped unprocessed.
    Discarded(Seq<RequestView>),
    /// Synthesize the request, which has this ticket.
    Generate(u64, RequestView),
}

/// What the generation worker has to do with the outcome of a synthesis.
pub enum WorkerActionView {
    /// The artifact is registered and its `Play` command is issued.
    Play(ArtifactView),
    /// Delete the file at this path: it is never played.
    Delete(Seq<char>),
    /// Log the failure and go on with the next request.
    Report(ErrorView),
}

/// The text of the failure reported when a backend hands out a path that
/// is still registered.
pub open spec fn reused_path_message() -> Seq<char> {
    "Synthesis returned a path that is still pending"@
}

/// Whether each number of the sequence is smaller than the next.
pub open spec fn increasing(numbers: Seq<u64>) -> bool {
    forall|i: int, j: int| 0 <= i < j < numbers.len() ==> numbers[i] < numbers[j]
}

/// The state of the pipeline.
pub struct PipelineView {
    /// Whether the pipeline has been initialized.
    pub initialized: bool,
    /// Whether the audio device could be opened at initialization.
    pub device_ready: bool,
    /// The requests that wait for the generation worker.
    pub queue: QueueView,
    /// The ticket of the request that is being synthesized, if one is.
    pub in_flight: Option<u64>,
    /// The stop level.
    pub cancel: CoordinatorView,
    /// The paths of the files that exist and are not yet deleted.
    pub registry: Seq<Seq<char>>,
    /// The artifacts whose `Play` command is issued and not yet carried
    /// out, oldest first.
    pub commands: Seq<ArtifactView>,
    /// The playback engine.
    pub playback: PlaybackView,
}

impl PipelineView {
    /// A pipeline that has not been initialized.
    pub open spec fn unstarted() -> PipelineView {
        PipelineView {
            initialized: false,
            device_ready: false,
            queue: QueueView::empty(),
            in_flight: None,
            cancel: CoordinatorView::idle(),
            registry: Seq::empty(),
            commands: Seq::empty(),
            playback: PlaybackView::fresh(),
        }
    }

    /// The artifacts that exist: those in the device's queue, then those
    /// that wait for the playback engine.
    pub open spec fn live(self) -> Seq<ArtifactView> {
        self.playback.sink + self.commands
    }

    /// The ticket below which every artifact that exists lies: that of the
    /// request in synthesis, or else of the next request to leave the queue.
    pub open spec fn horizon(self) -> u64 {
        match self.in_flight {
            Some(ticket) => ticket,
            None => self.queue.taken,
        }
    }

    /// The invariant of the pipeline. The registry holds exactly the paths
    /// of the artifacts that exist, each once; the artifacts stand in the
    /// order of their tickets, which is the order in which their requests
    /// were enqueued; and no artifact is ahead of the request in synthesis.
    pub open spec fn wf(self) -> bool {
        &&& self.queue.wf()
        &&& self.cancel.wf()
        &&& self.registry == paths_of(self.live())
        &&& self.registry.no_duplicates()
        &&& forall|i: int, j: int|
            0 <= i < j < self.live().len() ==> (#[trigger] self.live()[i]).ticket < (
            #[trigger] self.live()[j]).ticket
        &&& forall|i: int|
            0 <= i < self.live().len() ==> (#[trigger] self.live()[i]).ticket < self.horizon()
        &&& self.in_flight matches Some(ticket) ==> ticket < self.queue.taken
    }

    /// Whether nothing is left to do: no request waits or is in synthesis,
    /// no artifact waits for the playback engine or for its release.
    pub open spec fn quiescent(self) -> bool {
        &&& self.queue.items.len() == 0
        &&& self.in_flight is None
        &&& self.commands.len() == 0
        &&& self.playback.sink.len() == 0
    }

    /// Whether an artifact that comes out of synthesis now is to be deleted
    /// unplayed.
    pub open spec fn cancelling(self) -> bool {
        ||| !self.initialized
        ||| self.in_flight is None
        ||| self.cancel.stopping
        ||| self.queue.closed
    }

    /// Initialization, where `device_ready` says whether the audio device
    /// could be opened. It happens once: a later call changes nothing and
    /// gives the answer of the first. Without a device the pipeline still
    /// generates, and the failure is reported.
    pub open spec fn initialize(self, device_ready: bool) -> (PipelineView, Result<(), ErrorView>) {
        let after = if self.initialized {
            self
        } else {
            PipelineView { initialized: true, device_ready, ..self }
        };
        (
            after,
            if after.device_ready {
                Ok(())
            } else {
                Err(ErrorView::DeviceInitFailure)
            },
        )
    }

    /// A request to enqueue `request`.
    pub open spec fn enqueue(self, request: RequestView) -> (PipelineView, Result<(), ErrorView>) {
        if !self.initialized {
            (self, Err(ErrorView::QueueUninitialized))
        } else {
            (PipelineView { queue: self.queue.enqueued(request), ..self }, self.queue.admission())
        }
    }

    /// A stop request: the level is raised, unless the pipeline does not
    /// run.
    pub open spec fn stop(self) -> PipelineView {
        if !self.initialized || self.queue.closed {
            self
        } else {
            PipelineView { cancel: self.cancel.requested(), ..self }
        }
    }

    /// Shutdown: the queue is closed for good, what waits in it is dropped,
    /// and every artifact that exists is released. The result holds the
    /// released artifacts.
    pub open spec fn shutdown(self) -> (PipelineView, Seq<ArtifactView>) {
        (
            PipelineView {
                queue: self.queue.discarded().shut(),
                registry: Seq::empty(),
                commands: Seq::empty(),
                playback: PlaybackView { sink: Seq::empty(), ..self.playback },
                ..self
            },
            self.live(),
        )
    }

    /// The generation worker asks for work.
    pub open spec fn worker_next(self) -> (PipelineView, WorkerStepView) {
        if !self.initialized || self.in_flight is Some {
            (self, WorkerStepView::Idle)
        } else if self.queue.closed {
            (PipelineView { queue: self.queue.discarded(), ..self }, WorkerStepView::Closed)
        } else if self.cancel.stopping {
            (
                PipelineView {
                    queue: self.queue.discarded(),
                    cancel: self.cancel.acknowledged(Stage::Generation),
                    ..self
                },
                WorkerStepView::Discarded(self.queue.items),
            )
        } else if self.queue.items.len() == 0 {
            (self, WorkerStepView::Idle)
        } else {
            (
                PipelineView {
                    queue: self.queue.dequeued(),
                    in_flight: Some(self.queue.taken),
                    ..self
                },
                WorkerStepView::Generate(self.queue.taken, self.queue.items[0]),
            )
        }
    }

    /// The generation worker reports the outcome of a synthesis: the path of
    /// the audio file, or the backend's error.
    pub open spec fn worker_generated(self, outcome: Result<Seq<char>, Seq<char>>) -> (
        PipelineView,
        WorkerActionView,
    ) {
        let done = PipelineView { in_flight: None, ..self };
        match outcome {
            Err(reason) => (done, WorkerActionView::Report(ErrorView::AdapterFailure(reason))),
            Ok(path) => {
                if self.registry.contains(path) {
                    (
                        done,
                        WorkerActionView::Report(ErrorView::AdapterFailure(reused_path_message())),
                    )
                } else if self.cancelling() {
                    (done, WorkerActionView::Delete(path))
                } else {
                    let artifact = ArtifactView { ticket: self.in_flight->0, path };
                    (
                        PipelineView {
                            registry: self.registry.push(path),
                            commands: self.commands.push(artifact),
                            ..done
                        },
                        WorkerActionView::Play(artifact),
                    )
                }
            },
        }
    }

    /// The command that the playback engine receives next, if any: a
    /// shutdown before a stop, a stop before a `Play`.
    pub open spec fn next_command(self) -> Option<CommandView> {
        if !self.initialized || self.playback.terminated {
            None
        } else if self.queue.closed {
            Some(CommandView::Shutdown)
        } else if self.cancel.stopping {
            if self.cancel.playback_drained {
                None
            } else {
                Some(CommandView::Stop)
            }
        } else if self.device_ready && self.commands.len() > 0 {
            Some(CommandView::Play(self.commands[0]))
        } else {
            None
        }
    }

    /// The playback engine carries out its next command, where `decoded`
    /// says whether the file of a `Play` could be opened and decoded.
    pub open spec fn playback_step(self, decoded: bool) -> (PipelineView, EffectView) {
        match self.next_command() {
            None => (self, EffectView::Idle),
            Some(CommandView::Play(artifact)) => {
                let (playback, effect) = self.playback.played(artifact, decoded);
                (
                    PipelineView {
                        commands: self.commands.drop_first(),
                        registry: if decoded {
                            self.registry
                        } else {
                            without(self.registry, artifact.path)
                        },
                        playback,
                        ..self
                    },
                    effect,
                )
            },
            Some(CommandView::Stop) => (
                PipelineView {
                    cancel: self.cancel.acknowledged(Stage::Playback),
                    registry: Seq::empty(),
                    commands: Seq::empty(),
                    playback: PlaybackView { sink: Seq::empty(), ..self.playback },
                    ..self
                },
                EffectView::Cleared(self.live()),
            ),
            Some(CommandView::Shutdown) => (
                PipelineView {
                    registry: Seq::empty(),
                    commands: Seq::empty(),
                    playback: PlaybackView { sink: Seq::empty(), terminated: true },
                    ..self
                },
                EffectView::Terminated(self.live()),
            ),
        }
    }

    /// The periodic poll of the playback engine, where `device_idle` says
    /// whether the device's queue has run empty: then every artifact in it
    /// has been played and is released.
    pub open spec fn housekeeping(self, device_idle: bool) -> (PipelineView, Seq<ArtifactView>) {
        let (playback, released) = self.playback.swept(device_idle);
        (
            PipelineView { registry: self.registry.skip(released.len() as int), playback, ..self },
            released,
        )
    }
}

} // verus!
