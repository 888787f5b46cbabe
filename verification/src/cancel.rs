//! The cancellation coordinator: a stop level that both stages observe and
//! that is cleared only when both have acknowledged it.

use vstd::prelude::*;

verus! {

/// One of the two stages that observe the stop level.
#[derive(Clone, Copy, Debug, PartialEq, Eq, Structural)]
pub enum Stage {
    /// The generation worker.
    Generation,
    /// The playback engine.
    Playback,
}

/// The two states of the coordinator.
#[derive(Clone, Copy, Debug, PartialEq, Eq, Structural)]
pub enum CancelState {
    /// No stop is pending: the pipeline accepts work.
    Idle,
    /// A stop was requested and not yet acknowledged by both stages.
    Stopping,
}

/// What the coordinator holds: the level, and which stage has drained since
/// the level was raised.
pub struct CoordinatorView {
    pub stopping: bool,
    pub generation_drained: bool,
    pub playback_drained: bool,
}

impl CoordinatorView {
    /// The coordinator at rest.
    pub open spec fn idle() -> CoordinatorView {
        CoordinatorView { stopping: false, generation_drained: false, playback_drained: false }
    }

    /// Acknowledgments are recorded only while the level is raised, and the
    /// level does not stay raised once both stages have drained.
    pub open spec fn wf(self) -> bool {
        &&& !self.stopping ==> !self.generation_drained && !self.playback_drained
        &&& !(self.generation_drained && self.playback_drained)
    }

    /// The state of the coordinator.
    pub open spec fn state(self) -> CancelState {
        if self.stopping {
            CancelState::Stopping
        } else {
            CancelState::Idle
        }
    }

    /// Whether `stage` has drained since the level was raised.
    pub open spec fn drained(self, stage: Stage) -> bool {
        match stage {
            Stage::Generation => self.generation_drained,
            Stage::Playback => self.playback_drained,
        }
    }

    /// The coordinator after a stop request: the level is raised; a request
    /// that comes while it is raised changes nothing.
    pub open spec fn requested(self) -> CoordinatorView {
        if self.stopping {
            self
        } else {
            CoordinatorView { stopping: true, generation_drained: false, playback_drained: false }
        }
    }

    /// The coordinator after `stage` has reported that it drained: once both
    /// stages have, the level is cleared.
    pub open spec fn acknowledged(self, stage: Stage) -> CoordinatorView {
        if !self.stopping {
            self
        } else {
            let generation = self.generation_drained || stage == Stage::Generation;
            let playback = self.playback_drained || stage == Stage::Playback;
            if generation && playback {
                CoordinatorView::idle()
            } else {
                CoordinatorView {
                    stopping: true,
                    generation_drained: generation,
                    playback_drained: playback,
                }
            }
        }
    }
}

/// The stop level shared by the generation worker and the playback engine.
pub struct CancellationCoordinator {
    stopping: bool,
    generation_drained: bool,
    playback_drained: bool,
}

impl View for CancellationCoordinator {
    type V = CoordinatorView;

    closed spec fn view(&self) -> CoordinatorView {
        CoordinatorView {
            stopping: self.stopping,
            generation_drained: self.generation_drained,
            playback_drained: self.playback_drained,
        }
    }
}

impl CancellationCoordinator {
    /// A coordinator at rest.
    pub fn new() -> (coordinator: Self)
        ensures
            coordinator@ == CoordinatorView::idle(),
    {
        CancellationCoordinator {
            stopping: false,
            generation_drained: false,
            playback_drained: false,
        }
    }

    /// Whether the level is raised.
    pub fn is_stopping(&self) -> (stopping: bool)
        ensures
            stopping == self@.stopping,
    {
        self.stopping
    }

    /// The state of the coordinator.
    pub fn state(&self) -> (state: CancelState)
        ensures
            state == self@.state(),
    {
        if self.stopping {
            CancelState::Stopping
        } else {
            CancelState::Idle
        }
    }

    /// Whether `stage` has drained since the level was raised.
    pub fn has_drained(&self, stage: Stage) -> (drained: bool)
        ensures
            drained == self@.drained(stage),
    {
        match stage {
            Stage::Generation => self.generation_drained,
            Stage::Playback => self.playback_drained,
        }
    }

    /// Raises the level. Returns whether this call raised it: a request that
    /// comes while the level is raised is absorbed.
    pub fn request_stop(&mut self) -> (raised: bool)
        ensures
            final(self)@ == old(self)@.requested(),
            raised == !old(self)@.stopping,
            final(self)@.stopping,
    {
        if self.stopping {
            false
        } else {
            self.stopping = true;
            self.generation_drained = false;
            self.playback_drained = false;
            true
        }
    }

    /// Records that `stage` has observed the level and drained. Returns
    /// whether this call cleared the level, which it does when the other
    /// stage has drained too.
    pub fn acknowledge(&mut self, stage: Stage) -> (cleared: bool)
        ensures
            final(self)@ == old(self)@.acknowledged(stage),
            cleared == (old(self)@.stopping && !final(self)@.stopping),
    {
        if !self.stopping {
            return false;
        }
        match stage {
            Stage::Generation => {
                self.generation_drained = true;
            },
            Stage::Playback => {
                self.playback_drained = true;
            },
        }
        if self.generation_drained && self.playback_drained {
            self.stopping = false;
            self.generation_drained = false;
            self.playback_drained = false;
            true
        } else {
            false
        }
    }
}

/// A stop request is idempotent: a second one changes nothing.
pub proof fn lemma_request_stop_idempotent(c: CoordinatorView)
    ensures
        c.requested().requested() == c.requested(),
        c.requested().state() == CancelState::Stopping,
{
}

/// The coordinator has no transitions but these: a request takes `Idle` to
/// `Stopping`, and the acknowledgment of the second stage takes `Stopping`
/// to `Idle`. Every other call leaves the state as it is.
pub proof fn lemma_coordinator_transitions(c: CoordinatorView, stage: Stage)
    requires
        c.wf(),
    ensures
        c.requested().wf(),
        c.acknowledged(stage).wf(),
        c.state() == CancelState::Idle ==> c.acknowledged(stage) == c,
        c.state() == CancelState::Stopping ==> c.requested() == c,
        c.acknowledged(stage).state() == CancelState::Idle <==> (c.state() == CancelState::Idle || (
        stage == Stage::Generation && c.playback_drained) || (stage == Stage::Playback
            && c.generation_drained)),
        c.acknowledged(stage).state() == CancelState::Stopping ==> c.acknowledged(stage).drained(
            stage,
        ),
{
}

/// The level is cleared only after both stages have acknowledged it, in
/// either order, and then it is.
pub proof fn lemma_level_cleared_by_both(c: CoordinatorView)
    requires
        c.wf(),
    ensures
        c.requested().acknowledged(Stage::Generation).acknowledged(Stage::Playback).state()
            == CancelState::Idle,
        c.requested().acknowledged(Stage::Playback).acknowledged(Stage::Generation).state()
            == CancelState::Idle,
        !c.stopping ==> c.requested().acknowledged(Stage::Generation).state()
            == CancelState::Stopping,
        !c.stopping ==> c.requested().acknowledged(Stage::Playback).state()
            == CancelState::Stopping,
        !c.stopping ==> c.requested().acknowledged(Stage::Playback).acknowledged(
            Stage::Playback,
        ).state() == CancelState::Stopping,
        !c.stopping ==> c.requested().acknowledged(Stage::Generation).acknowledged(
            Stage::Generation,
        ).state() == CancelState::Stopping,
{
}

} // verus!
