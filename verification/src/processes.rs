//! The player processes that the application has started and may have to
//! kill.

use vstd::prelude::*;

verus! {

/// The processes that the application has started and that have not ended
/// yet, by their numbers. Only these are ever killed.
pub struct ProcessTracker {
    pids: Vec<u32>,
}

impl View for ProcessTracker {
    type V = Seq<u32>;

    closed spec fn view(&self) -> Seq<u32> {
        self.pids@
    }
}

impl ProcessTracker {
    /// No process is held twice.
    pub open spec fn wf(&self) -> bool {
        self@.no_duplicates()
    }

    /// A tracker that holds no process.
    pub fn new() -> (tracker: Self)
        ensures
            tracker@ == Seq::<u32>::empty(),
            tracker.wf(),
    {
        ProcessTracker { pids: Vec::new() }
    }

    /// The number of processes held.
    pub fn len(&self) -> (n: usize)
        ensures
            n == self@.len(),
    {
        self.pids.len()
    }

    fn position(&self, pid: u32) -> (at: Option<usize>)
        ensures
            match at {
                Some(i) => i < self@.len() && self@[i as int] == pid,
                None => !self@.contains(pid),
            },
    {
        let mut i: usize = 0;
        while i < self.pids.len()
            invariant
                i <= self.pids.len(),
                forall|k: int| 0 <= k < i ==> (#[trigger] self@[k]) != pid,
            decreases self.pids.len() - i,
        {
            if self.pids[i] == pid {
                return Some(i);
            }
            i = i + 1;
        }
        None
    }

    /// Whether the process `pid` is held.
    pub fn is_tracked(&self, pid: u32) -> (held: bool)
        ensures
            held == self@.contains(pid),
    {
        self.position(pid).is_some()
    }

    /// Records that the process `pid` was started.
    pub fn track(&mut self, pid: u32)
        requires
            old(self).wf(),
        ensures
            final(self).wf(),
            final(self)@ == if old(self)@.contains(pid) {
                old(self)@
            } else {
                old(self)@.push(pid)
            },
    {
        if self.position(pid).is_none() {
            self.pids.push(pid);
        }
    }

    /// Records that the process `pid` has ended.
    pub fn untrack(&mut self, pid: u32)
        requires
            old(self).wf(),
        ensures
            final(self).wf(),
            !final(self)@.contains(pid),
            forall|other: u32|
                other != pid ==> (#[trigger] final(self)@.contains(other) <==> old(
                    self,
                )@.contains(other)),
            final(self)@.len() == if old(self)@.contains(pid) {
                old(self)@.len() - 1
            } else {
                old(self)@.len() as int
            },
    {
        match self.position(pid) {
            Some(i) => {
                let ghost before = self@;
                self.pids.remove(i);
                proof {
                    let rest = self@;
                    let at = i as int;
                    assert(rest =~= before.remove(at));
                    assert forall|a: int, b: int|
                        0 <= a < rest.len() && 0 <= b < rest.len() && a != b implies rest[a]
                        != rest[b] by {
                        let a0 = if a < at { a } else { a + 1 };
                        let b0 = if b < at { b } else { b + 1 };
                        assert(rest[a] == before[a0]);
                        assert(rest[b] == before[b0]);
                    }
                    assert forall|k: int| 0 <= k < rest.len() implies rest[k] != pid by {
                        let k0 = if k < at { k } else { k + 1 };
                        assert(rest[k] == before[k0]);
                    }
                    assert forall|other: u32| other != pid implies (#[trigger] rest.contains(
                        other,
                    ) <==> before.contains(other)) by {
                        if rest.contains(other) {
                            let k = rest.index_of(other);
                            let k0 = if k < at { k } else { k + 1 };
                            assert(before[k0] == other);
                        }
                        if before.contains(other) {
                            let k0 = before.index_of(other);
                            let k = if k0 < at { k0 } else { k0 - 1 };
                            assert(rest[k] == other);
                        }
                    }
                }
            },
            None => {},
        }
    }
}

/// Stops what is being spoken: hands out the number of every process that
/// the application has started and that has not ended, each once, for the
/// caller to kill, and forgets them.
pub fn stop_speaking(tracker: &mut ProcessTracker) -> (to_kill: Vec<u32>)
    ensures
        to_kill@ == old(tracker)@,
        final(tracker)@ == Seq::<u32>::empty(),
        final(tracker).wf(),
{
    let mut to_kill: Vec<u32> = Vec::new();
    std::mem::swap(&mut tracker.pids, &mut to_kill);
    to_kill
}

} // verus!
