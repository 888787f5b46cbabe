//! Every operation of the pipeline keeps its invariant.

use crate::model::PipelineView;
use crate::registry::without;
use crate::request::{paths_of, ArtifactView, CommandView, RequestView};
use vstd::prelude::*;

verus! {

/// In a sequence without duplicates, taking a value out is taking out the
/// element at the index where it stands.
pub proof fn lemma_without_at(paths: Seq<Seq<char>>, i: int)
    requires
        paths.no_duplicates(),
        0 <= i < paths.len(),
    ensures
        without(paths, paths[i]) == paths.remove(i),
        paths.remove(i).no_duplicates(),
{
    assert(paths.contains(paths[i]));
    let k = paths.index_of(paths[i]);
    assert(k == i);
    let rest = paths.remove(i);
    assert forall|a: int, b: int| 0 <= a < rest.len() && 0 <= b < rest.len() && a != b implies rest[a]
        != rest[b] by {
        let a0 = if a < i { a } else { a + 1 };
        let b0 = if b < i { b } else { b + 1 };
        assert(rest[a] == paths[a0]);
        assert(rest[b] == paths[b0]);
    }
}

/// Initialization keeps the invariant.
pub proof fn lemma_initialize_wf(s: PipelineView, device_ready: bool)
    requires
        s.wf(),
    ensures
        s.initialize(device_ready).0.wf(),
{
    let t = s.initialize(device_ready).0;
    assert(t.live() == s.live());
}

/// Enqueueing keeps the invariant.
pub proof fn lemma_enqueue_wf(s: PipelineView, request: RequestView)
    requires
        s.wf(),
    ensures
        s.enqueue(request).0.wf(),
{
    let t = s.enqueue(request).0;
    assert(t.live() == s.live());
}

/// A stop request keeps the invariant.
pub proof fn lemma_stop_wf(s: PipelineView)
    requires
        s.wf(),
    ensures
        s.stop().wf(),
{
    let t = s.stop();
    assert(t.live() == s.live());
}

/// Shutdown keeps the invariant.
pub proof fn lemma_shutdown_wf(s: PipelineView)
    requires
        s.wf(),
    ensures
        s.shutdown().0.wf(),
{
    let t = s.shutdown().0;
    assert(t.live() =~= Seq::<ArtifactView>::empty());
    assert(t.registry =~= paths_of(t.live()));
}

/// The worker's request for work keeps the invariant.
pub proof fn lemma_worker_next_wf(s: PipelineView)
    requires
        s.wf(),
    ensures
        s.worker_next().0.wf(),
{
    let t = s.worker_next().0;
    assert(t.live() == s.live());
    assert forall|i: int| 0 <= i < t.live().len() implies (#[trigger] t.live()[i]).ticket
        < t.horizon() by {
        assert(s.live()[i].ticket < s.horizon());
    }
}

/// The report of a synthesis keeps the invariant.
pub proof fn lemma_worker_generated_wf(s: PipelineView, outcome: Result<Seq<char>, Seq<char>>)
    requires
        s.wf(),
    ensures
        s.worker_generated(outcome).0.wf(),
{
    let t = s.worker_generated(outcome).0;
    if t.commands == s.commands {
        assert(t.live() == s.live());
        assert forall|i: int| 0 <= i < t.live().len() implies (#[trigger] t.live()[i]).ticket
            < t.horizon() by {
            assert(s.live()[i].ticket < s.horizon());
        }
    } else {
        let path = outcome->Ok_0;
        let artifact = ArtifactView { ticket: s.in_flight->0, path };
        assert(t.live() =~= s.live().push(artifact));
        assert(t.registry =~= paths_of(t.live()));
        assert forall|i: int| 0 <= i < t.live().len() implies (#[trigger] t.live()[i]).ticket
            < t.horizon() by {
            if i < s.live().len() {
                assert(s.live()[i].ticket < s.horizon());
            }
        }
        assert forall|i: int, j: int| 0 <= i < j < t.live().len() implies (
        #[trigger] t.live()[i]).ticket < (#[trigger] t.live()[j]).ticket by {
            if j < s.live().len() {
                assert(s.live()[i].ticket < s.live()[j].ticket);
            } else {
                assert(s.live()[i].ticket < s.horizon());
            }
        }
        assert forall|i: int, j: int|
            0 <= i < t.registry.len() && 0 <= j < t.registry.len() && i != j implies t.registry[i]
            != t.registry[j] by {
            if i < s.registry.len() && j < s.registry.len() {
            } else if i < s.registry.len() {
                assert(s.registry.contains(s.registry[i]));
            } else {
                assert(s.registry.contains(s.registry[j]));
            }
        }
    }
}

/// A step of the playback engine keeps the invariant.
pub proof fn lemma_playback_step_wf(s: PipelineView, decoded: bool)
    requires
        s.wf(),
    ensures
        s.playback_step(decoded).0.wf(),
{
    let t = s.playback_step(decoded).0;
    match s.next_command() {
        None => {},
        Some(CommandView::Play(artifact)) => {
            let k = s.playback.sink.len() as int;
            assert(s.live()[k] == artifact);
            if decoded {
                assert(t.live() =~= s.live());
            } else {
                assert(t.live() =~= s.live().remove(k));
                assert(s.registry[k] == artifact.path);
                lemma_without_at(s.registry, k);
                assert(t.registry =~= paths_of(t.live()));
                assert forall|i: int| 0 <= i < t.live().len() implies (
                #[trigger] t.live()[i]).ticket < t.horizon() by {
                    let i0 = if i < k { i } else { i + 1 };
                    assert(t.live()[i] == s.live()[i0]);
                }
                assert forall|i: int, j: int| 0 <= i < j < t.live().len() implies (
                #[trigger] t.live()[i]).ticket < (#[trigger] t.live()[j]).ticket by {
                    let i0 = if i < k { i } else { i + 1 };
                    let j0 = if j < k { j } else { j + 1 };
                    assert(t.live()[i] == s.live()[i0]);
                    assert(t.live()[j] == s.live()[j0]);
                }
            }
        },
        Some(_) => {
            assert(t.live() =~= Seq::<ArtifactView>::empty());
            assert(t.registry =~= paths_of(t.live()));
        },
    }
}

/// The periodic poll keeps the invariant.
pub proof fn lemma_housekeeping_wf(s: PipelineView, device_idle: bool)
    requires
        s.wf(),
    ensures
        s.housekeeping(device_idle).0.wf(),
{
    let t = s.housekeeping(device_idle).0;
    let n = s.playback.swept(device_idle).1.len() as int;
    if n == 0 {
        assert(t.registry =~= s.registry);
        assert(t.live() =~= s.live());
    } else {
        assert(n == s.playback.sink.len());
        assert(t.live() =~= s.live().skip(n));
        assert(t.registry =~= paths_of(t.live()));
        assert forall|i: int| 0 <= i < t.live().len() implies (#[trigger] t.live()[i]).ticket
            < t.horizon() by {
            assert(t.live()[i] == s.live()[i + n]);
        }
        assert forall|i: int, j: int| 0 <= i < j < t.live().len() implies (
        #[trigger] t.live()[i]).ticket < (#[trigger] t.live()[j]).ticket by {
            assert(t.live()[i] == s.live()[i + n]);
            assert(t.live()[j] == s.live()[j + n]);
        }
        assert forall|i: int, j: int|
            0 <= i < t.registry.len() && 0 <= j < t.registry.len() && i != j implies t.registry[i]
            != t.registry[j] by {
            assert(t.registry[i] == s.registry[i + n]);
            assert(t.registry[j] == s.registry[j + n]);
        }
    }
}

} // verus!
