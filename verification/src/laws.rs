//! What holds of every run of the pipeline.
//!
//! A run is a sequence of events, each one an operation of the pipeline
//! with its arguments. The laws speak of the state after a run, of the
//! artifacts that the run hands to the audio device, and of the files that
//! it creates and deletes.

use crate::model::{increasing, PipelineView, WorkerActionView};
use crate::playback::EffectView;
use crate::preservation::{
    lemma_enqueue_wf, lemma_housekeeping_wf, lemma_initialize_wf, lemma_playback_step_wf,
    lemma_shutdown_wf, lemma_stop_wf, lemma_worker_generated_wf, lemma_worker_next_wf,
};
use crate::preservation::lemma_without_at;
use crate::request::{paths_of, tickets_of, ArtifactView, CommandView, RequestView};
use vstd::multiset::Multiset;
use vstd::prelude::*;
use vstd::seq_lib::{lemma_multiset_commutative, to_multiset_build, to_multiset_remove};

verus! {

/// One operation on the pipeline, with its arguments.
pub enum Event {
    /// Initialization, with whether the audio device could be opened.
    Initialize(bool),
    /// A caller enqueues a request.
    Enqueue(RequestView),
    /// A caller asks for a stop.
    Stop,
    /// A caller shuts the pipeline down.
    Shutdown,
    /// The generation worker asks for work.
    WorkerNext,
    /// The generation worker reports the outcome of a synthesis.
    Generated(Result<Seq<char>, Seq<char>>),
    /// The playback engine carries out its next command, with whether the
    /// file of a `Play` could be decoded.
    PlaybackStep(bool),
    /// The playback engine polls, with whether the device has run empty.
    Housekeeping(bool),
}

impl PipelineView {
    /// The first ticket that no request has yet.
    pub open spec fn next_ticket(self) -> int {
        self.queue.taken + self.queue.items.len()
    }

    /// The state after `event`.
    pub open spec fn after(self, event: Event) -> PipelineView {
        match event {
            Event::Initialize(device_ready) => self.initialize(device_ready).0,
            Event::Enqueue(request) => self.enqueue(request).0,
            Event::Stop => self.stop(),
            Event::Shutdown => self.shutdown().0,
            Event::WorkerNext => self.worker_next().0,
            Event::Generated(outcome) => self.worker_generated(outcome).0,
            Event::PlaybackStep(decoded) => self.playback_step(decoded).0,
            Event::Housekeeping(device_idle) => self.housekeeping(device_idle).0,
        }
    }

    /// The artifact that `event` hands to the audio device, if any.
    pub open spec fn appended_by(self, event: Event) -> Option<ArtifactView> {
        match event {
            Event::PlaybackStep(decoded) => self.playback_step(decoded).1.appended(),
            _ => None,
        }
    }

    /// The paths of the files that came into being with `event`: the path
    /// that a synthesis hands out, unless it is that of a file that exists.
    pub open spec fn created_by(self, event: Event) -> Seq<Seq<char>> {
        match event {
            Event::Generated(Ok(path)) => if self.registry.contains(path) {
                Seq::empty()
            } else {
                seq![path]
            },
            _ => Seq::empty(),
        }
    }

    /// The paths of the files that `event` hands out to be deleted.
    pub open spec fn released_by(self, event: Event) -> Seq<Seq<char>> {
        match event {
            Event::Shutdown => paths_of(self.shutdown().1),
            Event::Generated(outcome) => match self.worker_generated(outcome).1 {
                WorkerActionView::Delete(path) => seq![path],
                _ => Seq::empty(),
            },
            Event::PlaybackStep(decoded) => paths_of(self.playback_step(decoded).1.released()),
            Event::Housekeeping(device_idle) => paths_of(self.housekeeping(device_idle).1),
            _ => Seq::empty(),
        }
    }

    /// The state after a run.
    pub open spec fn after_all(self, events: Seq<Event>) -> PipelineView
        decreases events.len(),
    {
        if events.len() == 0 {
            self
        } else {
            self.after(events[0]).after_all(events.drop_first())
        }
    }

    /// The artifacts that a run hands to the audio device, in the order in
    /// which it does.
    pub open spec fn played(self, events: Seq<Event>) -> Seq<ArtifactView>
        decreases events.len(),
    {
        if events.len() == 0 {
            Seq::empty()
        } else {
            let rest = self.after(events[0]).played(events.drop_first());
            match self.appended_by(events[0]) {
                Some(artifact) => seq![artifact] + rest,
                None => rest,
            }
        }
    }

    /// The paths of the files that come into being during a run.
    pub open spec fn created(self, events: Seq<Event>) -> Seq<Seq<char>>
        decreases events.len(),
    {
        if events.len() == 0 {
            Seq::empty()
        } else {
            self.created_by(events[0]) + self.after(events[0]).created(events.drop_first())
        }
    }

    /// The paths of the files that a run hands out to be deleted.
    pub open spec fn released(self, events: Seq<Event>) -> Seq<Seq<char>>
        decreases events.len(),
    {
        if events.len() == 0 {
            Seq::empty()
        } else {
            self.released_by(events[0]) + self.after(events[0]).released(events.drop_first())
        }
    }

    /// Whether a stop is raised that the playback engine has not carried
    /// out yet.
    pub open spec fn playback_owes_stop(self) -> bool {
        self.cancel.stopping && !self.cancel.playback_drained
    }

    /// Whether a stop is raised that the generation worker has not
    /// acknowledged yet.
    pub open spec fn worker_owes_stop(self) -> bool {
        self.cancel.stopping && !self.cancel.generation_drained
    }

    /// Whether no request with a ticket below `floor` can reach the audio
    /// device any more. Such a request has left the pipeline, or a stop is
    /// raised that will remove it before anything is played.
    pub open spec fn bars(self, floor: int) -> bool {
        &&& floor <= self.next_ticket()
        &&& self.playback_owes_stop() || forall|i: int|
            0 <= i < self.commands.len() ==> floor <= (#[trigger] self.commands[i]).ticket
        &&& self.worker_owes_stop() || floor <= self.horizon()
    }
}

/// Every operation keeps the invariant of the pipeline.
pub proof fn lemma_after_wf(s: PipelineView, event: Event)
    requires
        s.wf(),
    ensures
        s.after(event).wf(),
{
    match event {
        Event::Initialize(device_ready) => lemma_initialize_wf(s, device_ready),
        Event::Enqueue(request) => lemma_enqueue_wf(s, request),
        Event::Stop => lemma_stop_wf(s),
        Event::Shutdown => lemma_shutdown_wf(s),
        Event::WorkerNext => lemma_worker_next_wf(s),
        Event::Generated(outcome) => lemma_worker_generated_wf(s, outcome),
        Event::PlaybackStep(decoded) => lemma_playback_step_wf(s, decoded),
        Event::Housekeeping(device_idle) => lemma_housekeeping_wf(s, device_idle),
    }
}

/// The invariant holds after every run from a new pipeline, and from any
/// state in which it holds.
pub proof fn lemma_after_all_wf(s: PipelineView, events: Seq<Event>)
    requires
        s.wf(),
    ensures
        s.after_all(events).wf(),
        PipelineView::unstarted().wf(),
    decreases events.len(),
{
    if events.len() > 0 {
        lemma_after_wf(s, events[0]);
        lemma_after_all_wf(s.after(events[0]), events.drop_first());
    }
    let fresh = PipelineView::unstarted();
    assert(fresh.live() =~= Seq::<ArtifactView>::empty());
    assert(fresh.registry =~= paths_of(fresh.live()));
}

/// One step of the argument that a barred request is never played: what
/// an event hands to the device has a ticket at or above the floor, the
/// floor stays, and after an artifact was handed over every ticket up to
/// its own is barred too.
pub proof fn lemma_bars_step(s: PipelineView, event: Event, floor: int)
    requires
        s.wf(),
        s.bars(floor),
    ensures
        s.after(event).bars(floor),
        s.appended_by(event) matches Some(artifact) ==> floor <= artifact.ticket && s.after(
            event,
        ).bars(artifact.ticket + 1),
{
    let t = s.after(event);
    lemma_after_wf(s, event);
    match event {
        Event::PlaybackStep(decoded) => {
            match s.next_command() {
                Some(CommandView::Play(artifact)) => {
                    let k = s.playback.sink.len() as int;
                    assert(s.live()[k] == s.commands[0]);
                    assert(floor <= s.commands[0].ticket);
                    assert forall|i: int| 0 <= i < t.commands.len() implies s.commands[0].ticket
                        + 1 <= (#[trigger] t.commands[i]).ticket by {
                        assert(t.commands[i] == s.commands[i + 1]);
                        assert(s.live()[k + i + 1] == s.commands[i + 1]);
                        assert(s.live()[k].ticket < s.live()[k + i + 1].ticket);
                    }
                    assert(s.live()[k].ticket < s.horizon());
                },
                _ => {},
            }
        },
        Event::Generated(outcome) => {
            if t.commands != s.commands {
                assert(t.commands == s.commands.push(
                    ArtifactView { ticket: s.in_flight->0, path: outcome->Ok_0 },
                ));
            }
        },
        _ => {},
    }
}

/// Tickets of what a run plays, from a state that bars every ticket below
/// `floor`: none is below the floor, and each is above the one before.
pub proof fn lemma_played_above(s: PipelineView, events: Seq<Event>, floor: int)
    requires
        s.wf(),
        s.bars(floor),
    ensures
        increasing(tickets_of(s.played(events))),
        forall|k: int|
            0 <= k < s.played(events).len() ==> floor <= (#[trigger] s.played(events)[k]).ticket,
    decreases events.len(),
{
    if events.len() > 0 {
        let t = s.after(events[0]);
        let rest = t.played(events.drop_first());
        lemma_after_wf(s, events[0]);
        lemma_bars_step(s, events[0], floor);
        match s.appended_by(events[0]) {
            Some(artifact) => {
                lemma_played_above(t, events.drop_first(), artifact.ticket + 1);
                let all = s.played(events);
                assert(all == seq![artifact] + rest);
                assert forall|i: int, j: int| 0 <= i < j < tickets_of(all).len() implies tickets_of(
                    all,
                )[i] < tickets_of(all)[j] by {
                    assert(all[j] == rest[j - 1]);
                    if i > 0 {
                        assert(all[i] == rest[i - 1]);
                        assert(tickets_of(rest)[i - 1] < tickets_of(rest)[j - 1]);
                    }
                }
                assert forall|k: int| 0 <= k < all.len() implies floor <= (#[trigger] all[k]).ticket by {
                    if k > 0 {
                        assert(all[k] == rest[k - 1]);
                    }
                }
            },
            None => {
                lemma_played_above(t, events.drop_first(), floor);
            },
        }
    }
}

/// First in, first out. Whatever the run, the audio device receives the
/// artifacts in the order of their tickets, which is the order in which
/// their requests were enqueued: no artifact overtakes another, and none
/// is played twice.
pub proof fn lemma_played_in_order(s: PipelineView, events: Seq<Event>)
    requires
        s.wf(),
    ensures
        increasing(tickets_of(s.played(events))),
{
    lemma_played_above(s, events, 0);
}

/// Once a stop is raised, the first step of the playback engine clears the
/// device's queue: every artifact that exists is released, and nothing is
/// left in the device's queue, in the command queue or in the registry.
pub proof fn lemma_stop_clears_device(s: PipelineView, decoded: bool)
    requires
        s.wf(),
        s.initialized,
        !s.queue.closed,
        !s.playback.terminated,
        s.playback_owes_stop(),
    ensures
        s.next_command() == Some(CommandView::Stop),
        s.playback_step(decoded).1 == EffectView::Cleared(s.live()),
        paths_of(s.playback_step(decoded).1.released()) == s.registry,
        s.playback_step(decoded).0.playback.sink.len() == 0,
        s.playback_step(decoded).0.commands.len() == 0,
        s.playback_step(decoded).0.registry.len() == 0,
        !s.playback_step(decoded).0.playback_owes_stop(),
{
}

/// A stop request on a running pipeline leaves both stages owing the stop,
/// unless a stop was raised before.
pub proof fn lemma_stop_is_owed(s: PipelineView)
    requires
        s.wf(),
        s.initialized,
        !s.queue.closed,
    ensures
        s.stop().cancel.stopping,
        !s.cancel.stopping ==> s.stop().playback_owes_stop() && s.stop().worker_owes_stop(),
        s.stop().stop() == s.stop(),
{
}

/// Nothing that was there when a stop was raised is played afterwards.
/// From a state in which both stages owe a stop, every artifact that is
/// ever handed to the device belongs to a request enqueued later: the
/// artifacts that existed, the request in synthesis and the requests in the
/// queue are never played.
pub proof fn lemma_stopped_work_never_played(s: PipelineView, events: Seq<Event>)
    requires
        s.wf(),
        s.playback_owes_stop(),
        s.worker_owes_stop(),
    ensures
        forall|k: int|
            0 <= k < s.played(events).len() ==> s.next_ticket() <= (#[trigger] s.played(
                events,
            )[k]).ticket,
        forall|k: int, i: int|
            0 <= k < s.played(events).len() && 0 <= i < s.live().len() ==> (#[trigger] s.played(
                events,
            )[k]).ticket != (#[trigger] s.live()[i]).ticket,
        forall|k: int|
            0 <= k < s.played(events).len() ==> Some((#[trigger] s.played(events)[k]).ticket)
                != s.in_flight,
{
    lemma_played_above(s, events, s.next_ticket());
    assert forall|k: int, i: int|
        0 <= k < s.played(events).len() && 0 <= i < s.live().len() implies (#[trigger] s.played(
        events,
    )[k]).ticket != (#[trigger] s.live()[i]).ticket by {
        assert(s.live()[i].ticket < s.horizon());
    }
}

/// In a quiescent state nothing is pending: the registry is empty.
pub proof fn lemma_quiescent_registry_empty(s: PipelineView)
    requires
        s.wf(),
        s.quiescent(),
    ensures
        s.registry.len() == 0,
        s.registry.to_set() == Set::<Seq<char>>::empty(),
{
    assert(s.live() =~= Seq::<ArtifactView>::empty());
    assert(s.registry =~= Seq::<Seq<char>>::empty());
    assert(s.registry.to_set() =~= Set::<Seq<char>>::empty());
}

/// Shutdown is idempotent and leaks nothing. The first shutdown hands out
/// every file that exists and leaves the registry empty; a second one
/// changes nothing and has nothing to hand out; and the queue stays closed.
pub proof fn lemma_shutdown_idempotent(s: PipelineView, request: RequestView)
    requires
        s.wf(),
    ensures
        paths_of(s.shutdown().1) == s.registry,
        s.shutdown().0.registry.len() == 0,
        s.shutdown().0.live().len() == 0,
        s.shutdown().0.queue.items.len() == 0,
        s.shutdown().0.shutdown().0 == s.shutdown().0,
        s.shutdown().0.shutdown().1.len() == 0,
        s.shutdown().0.enqueue(request).0 == s.shutdown().0,
        s.shutdown().0.enqueue(request).1 is Err,
{
    let t = s.shutdown().0;
    assert(t.live() =~= Seq::<ArtifactView>::empty());
    let u = t.shutdown().0;
    assert(u.queue == t.queue);
    assert(u.playback == t.playback);
    assert(u == t);
}

/// The multiset of an empty sequence is empty, and that of a single
/// element holds it once.
proof fn lemma_small_multisets(path: Seq<char>)
    ensures
        Seq::<Seq<char>>::empty().to_multiset() == Multiset::<Seq<char>>::empty(),
        seq![path].to_multiset() == Multiset::<Seq<char>>::empty().insert(path),
{
    let none = Seq::<Seq<char>>::empty();
    none.to_multiset_ensures();
    assert(none.to_multiset() =~= Multiset::<Seq<char>>::empty());
    to_multiset_build(none, path);
    assert(none.push(path) =~= seq![path]);
}

/// No file is lost and none is deleted twice, step by step: the files
/// that are registered before an event, with those that come into being
/// with it, are those that are registered after it, with those that it
/// hands out to be deleted.
pub proof fn lemma_files_step(s: PipelineView, event: Event)
    requires
        s.wf(),
    ensures
        s.registry.to_multiset().add(s.created_by(event).to_multiset()) == s.after(
            event,
        ).registry.to_multiset().add(s.released_by(event).to_multiset()),
{
    let t = s.after(event);
    let none = Seq::<Seq<char>>::empty();
    lemma_small_multisets(Seq::empty());
    assert(s.registry.to_multiset().add(none.to_multiset()) =~= s.registry.to_multiset());
    assert(none.to_multiset().add(s.registry.to_multiset()) =~= s.registry.to_multiset());
    match event {
        Event::Shutdown => {
            assert(t.registry =~= none);
        },
        Event::Generated(outcome) => {
            match outcome {
                Ok(path) => {
                    lemma_small_multisets(path);
                    if s.registry.contains(path) {
                    } else if s.cancelling() {
                    } else {
                        to_multiset_build(s.registry, path);
                        assert(s.registry.to_multiset().add(seq![path].to_multiset())
                            =~= s.registry.to_multiset().insert(path));
                        assert(t.registry.to_multiset().add(none.to_multiset())
                            =~= t.registry.to_multiset());
                    }
                },
                Err(_) => {},
            }
        },
        Event::PlaybackStep(decoded) => {
            match s.next_command() {
                None => {
                    assert(s.released_by(event) =~= none);
                },
                Some(CommandView::Play(artifact)) => {
                    if decoded {
                        assert(s.released_by(event) =~= none);
                    } else {
                        let k = s.playback.sink.len() as int;
                        assert(s.live()[k] == artifact);
                        assert(s.registry[k] == artifact.path);
                        lemma_without_at(s.registry, k);
                        to_multiset_remove(s.registry, k);
                        lemma_small_multisets(artifact.path);
                        s.registry.to_multiset_ensures();
                        assert(s.registry.contains(artifact.path));
                        assert(s.released_by(event) =~= seq![artifact.path]);
                        assert(t.registry.to_multiset().add(seq![artifact.path].to_multiset())
                            =~= s.registry.to_multiset());
                    }
                },
                Some(_) => {
                    assert(t.registry =~= none);
                    assert(s.released_by(event) == s.registry);
                },
            }
        },
        Event::Housekeeping(device_idle) => {
            let released = s.housekeeping(device_idle).1;
            let n = released.len() as int;
            if n == 0 {
                assert(t.registry =~= s.registry);
                assert(paths_of(released) =~= none);
            } else {
                assert(released == s.playback.sink);
                assert(paths_of(released) =~= s.registry.take(n));
                assert(s.registry =~= s.registry.take(n) + s.registry.skip(n));
                lemma_multiset_commutative(s.registry.take(n), s.registry.skip(n));
                assert(s.registry.take(n).to_multiset().add(s.registry.skip(n).to_multiset())
                    =~= s.registry.skip(n).to_multiset().add(s.registry.take(n).to_multiset()));
            }
        },
        _ => {},
    }
}

/// No file is lost and none is deleted twice, over a whole run: the files
/// that are registered at the start, with those that come into being
/// during the run, are those that are registered at the end, with those
/// that the run hands out to be deleted, each as often on one side as on
/// the other.
pub proof fn lemma_files_accounted(s: PipelineView, events: Seq<Event>)
    requires
        s.wf(),
    ensures
        s.registry.to_multiset().add(s.created(events).to_multiset()) == s.after_all(
            events,
        ).registry.to_multiset().add(s.released(events).to_multiset()),
    decreases events.len(),
{
    let none = Seq::<Seq<char>>::empty();
    lemma_small_multisets(Seq::empty());
    if events.len() == 0 {
        assert(s.registry.to_multiset().add(none.to_multiset()) =~= s.registry.to_multiset());
    } else {
        let t = s.after(events[0]);
        let rest = events.drop_first();
        lemma_after_wf(s, events[0]);
        lemma_files_step(s, events[0]);
        lemma_files_accounted(t, rest);
        lemma_multiset_commutative(s.created_by(events[0]), t.created(rest));
        lemma_multiset_commutative(s.released_by(events[0]), t.released(rest));
        let r0 = s.registry.to_multiset();
        let c0 = s.created_by(events[0]).to_multiset();
        let d0 = s.released_by(events[0]).to_multiset();
        let r1 = t.registry.to_multiset();
        let c1 = t.created(rest).to_multiset();
        let d1 = t.released(rest).to_multiset();
        let r2 = t.after_all(rest).registry.to_multiset();
        assert(r0.add(c0) == r1.add(d0));
        assert(r1.add(c1) == r2.add(d1));
        assert(r0.add(c0.add(c1)) =~= r0.add(c0).add(c1));
        assert(r1.add(d0).add(c1) =~= r1.add(c1).add(d0));
        assert(r2.add(d1).add(d0) =~= r2.add(d0.add(d1)));
    }
}

/// Cleanup. When a run ends in a quiescent state, whatever happened on the
/// way (requests played to their end, stopped during synthesis or during
/// playback, failed in the backend or at decoding), the registry is empty
/// and every file that was registered at the start or came into being
/// during the run has been handed out to be deleted, exactly once.
pub proof fn lemma_cleanup(s: PipelineView, events: Seq<Event>)
    requires
        s.wf(),
        s.after_all(events).quiescent(),
    ensures
        s.after_all(events).registry.len() == 0,
        s.released(events).to_multiset() == s.registry.to_multiset().add(
            s.created(events).to_multiset(),
        ),
{
    let end = s.after_all(events);
    lemma_after_all_wf(s, events);
    lemma_quiescent_registry_empty(end);
    lemma_files_accounted(s, events);
    let none = Seq::<Seq<char>>::empty();
    lemma_small_multisets(Seq::empty());
    assert(end.registry =~= none);
    assert(none.to_multiset().add(s.released(events).to_multiset()) =~= s.released(
        events,
    ).to_multiset());
}

/// The tickets from `low` up to `high`, which is not among them.
pub open spec fn ticket_range(low: int, high: int) -> Seq<u64> {
    Seq::new(
        if high > low {
            (high - low) as nat
        } else {
            0
        },
        |i: int| (low + i) as u64,
    )
}

impl PipelineView {
    /// The tickets of the requests that are on their way to the audio
    /// device, in order: those whose artifact waits for the playback
    /// engine, the one in synthesis, and those in the queue.
    pub open spec fn upcoming(self) -> Seq<u64> {
        tickets_of(self.commands) + (match self.in_flight {
            Some(ticket) => seq![ticket],
            None => Seq::empty(),
        }) + ticket_range(self.queue.taken as int, self.next_ticket())
    }

    /// Whether the pipeline runs: it is initialized with a device, not shut
    /// down, and no stop is raised.
    pub open spec fn running(self) -> bool {
        &&& self.initialized
        &&& self.device_ready
        &&& !self.queue.closed
        &&& !self.cancel.stopping
        &&& !self.playback.terminated
    }

    /// Whether `event` lets every request through: it is no stop and no
    /// shutdown, a synthesis that it reports has given a new file, and a
    /// file that it plays could be decoded.
    pub open spec fn undisturbed_by(self, event: Event) -> bool {
        match event {
            Event::Stop => false,
            Event::Shutdown => false,
            Event::Generated(outcome) => self.in_flight is Some && outcome is Ok
                && !self.registry.contains(outcome->Ok_0),
            Event::PlaybackStep(decoded) => decoded,
            _ => true,
        }
    }

    /// Whether every event of a run lets every request through.
    pub open spec fn undisturbed(self, events: Seq<Event>) -> bool
        decreases events.len(),
    {
        events.len() == 0 || (self.undisturbed_by(events[0]) && self.after(
            events[0],
        ).undisturbed(events.drop_first()))
    }
}

/// One step of the argument that no request is skipped.
pub proof fn lemma_nothing_skipped_step(s: PipelineView, event: Event)
    requires
        s.wf(),
        s.running(),
        s.undisturbed_by(event),
    ensures
        s.after(event).running(),
        s.next_ticket() <= s.after(event).next_ticket(),
        (match s.appended_by(event) {
            Some(artifact) => seq![artifact.ticket],
            None => Seq::<u64>::empty(),
        }) + s.after(event).upcoming() == s.upcoming() + ticket_range(
            s.next_ticket(),
            s.after(event).next_ticket(),
        ),
{
    let t = s.after(event);
    let none = Seq::<u64>::empty();
    let handed = match s.appended_by(event) {
        Some(artifact) => seq![artifact.ticket],
        None => none,
    };
    match event {
        Event::Enqueue(request) => {
            assert(handed + t.upcoming() =~= s.upcoming() + ticket_range(
                s.next_ticket(),
                t.next_ticket(),
            ));
        },
        Event::WorkerNext => {
            assert(handed + t.upcoming() =~= s.upcoming() + ticket_range(
                s.next_ticket(),
                t.next_ticket(),
            ));
        },
        Event::Generated(outcome) => {
            let artifact = ArtifactView { ticket: s.in_flight->0, path: outcome->Ok_0 };
            assert(t.commands == s.commands.push(artifact));
            assert(tickets_of(t.commands) =~= tickets_of(s.commands).push(artifact.ticket));
            assert(handed + t.upcoming() =~= s.upcoming() + ticket_range(
                s.next_ticket(),
                t.next_ticket(),
            ));
        },
        Event::PlaybackStep(decoded) => {
            if s.commands.len() > 0 {
                assert(tickets_of(s.commands) =~= seq![s.commands[0].ticket] + tickets_of(
                    t.commands,
                ));
            }
            assert(handed + t.upcoming() =~= s.upcoming() + ticket_range(
                s.next_ticket(),
                t.next_ticket(),
            ));
        },
        _ => {
            assert(handed + t.upcoming() =~= s.upcoming() + ticket_range(
                s.next_ticket(),
                t.next_ticket(),
            ));
        },
    }
}

/// Nothing is skipped. In a run without stop, shutdown or failure, from a
/// running pipeline, the requests that were on their way at the start,
/// followed by those that the run accepted, are those that the device has
/// received, followed by those that are still on their way: in one order,
/// the order of enqueueing, and each once.
pub proof fn lemma_nothing_skipped(s: PipelineView, events: Seq<Event>)
    requires
        s.wf(),
        s.running(),
        s.undisturbed(events),
    ensures
        s.after_all(events).running(),
        s.next_ticket() <= s.after_all(events).next_ticket(),
        tickets_of(s.played(events)) + s.after_all(events).upcoming() == s.upcoming()
            + ticket_range(s.next_ticket(), s.after_all(events).next_ticket()),
    decreases events.len(),
{
    if events.len() == 0 {
        assert(tickets_of(s.played(events)) + s.upcoming() =~= s.upcoming() + ticket_range(
            s.next_ticket(),
            s.next_ticket(),
        ));
    } else {
        let t = s.after(events[0]);
        let rest = events.drop_first();
        let end = t.after_all(rest);
        lemma_after_wf(s, events[0]);
        lemma_nothing_skipped_step(s, events[0]);
        lemma_nothing_skipped(t, rest);
        let handed = match s.appended_by(events[0]) {
            Some(artifact) => seq![artifact.ticket],
            None => Seq::<u64>::empty(),
        };
        assert(tickets_of(s.played(events)) =~= handed + tickets_of(t.played(rest)));
        assert(ticket_range(s.next_ticket(), t.next_ticket()) + ticket_range(
            t.next_ticket(),
            end.next_ticket(),
        ) =~= ticket_range(s.next_ticket(), end.next_ticket()));
        assert(tickets_of(s.played(events)) + end.upcoming() =~= handed + (tickets_of(
            t.played(rest),
        ) + end.upcoming()));
        assert(handed + (t.upcoming() + ticket_range(t.next_ticket(), end.next_ticket())) =~= (
        handed + t.upcoming()) + ticket_range(t.next_ticket(), end.next_ticket()));
        assert((s.upcoming() + ticket_range(s.next_ticket(), t.next_ticket())) + ticket_range(
            t.next_ticket(),
            end.next_ticket(),
        ) =~= s.upcoming() + (ticket_range(s.next_ticket(), t.next_ticket()) + ticket_range(
            t.next_ticket(),
            end.next_ticket(),
        )));
    }
}

/// First in, first out, to the end. When a run without stop, shutdown or
/// failure ends with nothing left on its way, the device has received the
/// artifact of every request that was on its way at the start or was
/// accepted during the run, in the order of enqueueing.
pub proof fn lemma_all_played_in_order(s: PipelineView, events: Seq<Event>)
    requires
        s.wf(),
        s.running(),
        s.undisturbed(events),
        s.after_all(events).queue.items.len() == 0,
        s.after_all(events).in_flight is None,
        s.after_all(events).commands.len() == 0,
    ensures
        tickets_of(s.played(events)) == s.upcoming() + ticket_range(
            s.next_ticket(),
            s.after_all(events).next_ticket(),
        ),
        increasing(tickets_of(s.played(events))),
{
    let end = s.after_all(events);
    lemma_nothing_skipped(s, events);
    lemma_played_in_order(s, events);
    assert(end.upcoming() =~= Seq::<u64>::empty());
    assert(tickets_of(s.played(events)) + end.upcoming() =~= tickets_of(s.played(events)));
}

} // verus!
