//! The registry of temporary audio files that have been created and not yet
//! deleted.

use crate::text::texts;
use vstd::prelude::*;

verus! {

/// `paths` without `path`; `paths` itself where `path` does not occur.
pub open spec fn without(paths: Seq<Seq<char>>, path: Seq<char>) -> Seq<Seq<char>> {
    if paths.contains(path) {
        paths.remove(paths.index_of(path))
    } else {
        paths
    }
}

/// Removing a path from a duplicate-free sequence leaves a duplicate-free
/// sequence that holds every other path and no longer holds the removed one.
pub proof fn lemma_without(paths: Seq<Seq<char>>, path: Seq<char>)
    requires
        paths.no_duplicates(),
    ensures
        without(paths, path).no_duplicates(),
        !without(paths, path).contains(path),
        forall|other: Seq<char>|
            other != path ==> (#[trigger] without(paths, path).contains(other)
                <==> paths.contains(other)),
        without(paths, path).len() == if paths.contains(path) {
            paths.len() - 1
        } else {
            paths.len() as int
        },
{
    if paths.contains(path) {
        let i = paths.index_of(path);
        let rest = paths.remove(i);
        assert forall|a: int, b: int| 0 <= a < rest.len() && 0 <= b < rest.len() && a != b implies rest[a]
            != rest[b] by {
            let a0 = if a < i { a } else { a + 1 };
            let b0 = if b < i { b } else { b + 1 };
            assert(rest[a] == paths[a0]);
            assert(rest[b] == paths[b0]);
        }
        assert forall|k: int| 0 <= k < rest.len() implies rest[k] != path by {
            let k0 = if k < i { k } else { k + 1 };
            assert(rest[k] == paths[k0]);
        }
        assert forall|other: Seq<char>| other != path implies (#[trigger] rest.contains(other)
            <==> paths.contains(other)) by {
            if rest.contains(other) {
                let k = rest.index_of(other);
                let k0 = if k < i { k } else { k + 1 };
                assert(paths[k0] == other);
            }
            if paths.contains(other) {
                let k0 = paths.index_of(other);
                let k = if k0 < i { k0 } else { k0 - 1 };
                assert(rest[k] == other);
            }
        }
    }
}

/// The set of temporary files that exist and are still to be deleted.
///
/// The view is the sequence of their paths in the order of registration.
pub struct TempFileRegistry {
    paths: Vec<String>,
}

impl View for TempFileRegistry {
    type V = Seq<Seq<char>>;

    closed spec fn view(&self) -> Seq<Seq<char>> {
        texts(self.paths@)
    }
}

impl TempFileRegistry {
    /// No path is held twice.
    pub open spec fn wf(&self) -> bool {
        self@.no_duplicates()
    }

    /// The paths that are pending, as a set.
    pub open spec fn pending(&self) -> Set<Seq<char>> {
        self@.to_set()
    }

    /// An empty registry.
    pub fn new() -> (registry: Self)
        ensures
            registry@ == Seq::<Seq<char>>::empty(),
            registry.wf(),
    {
        let registry = TempFileRegistry { paths: Vec::new() };
        assert(registry@ =~= Seq::<Seq<char>>::empty());
        registry
    }

    /// The number of pending paths.
    pub fn len(&self) -> (n: usize)
        ensures
            n == self@.len(),
    {
        self.paths.len()
    }

    /// Whether nothing is pending.
    pub fn is_empty(&self) -> (empty: bool)
        ensures
            empty == (self@.len() == 0),
    {
        self.paths.len() == 0
    }

    fn position(&self, path: &String) -> (at: Option<usize>)
        ensures
            match at {
                Some(i) => i < self@.len() && self@[i as int] == path@,
                None => !self@.contains(path@),
            },
    {
        let mut i: usize = 0;
        while i < self.paths.len()
            invariant
                i <= self.paths.len(),
                forall|k: int| 0 <= k < i ==> (#[trigger] self@[k]) != path@,
            decreases self.paths.len() - i,
        {
            if self.paths[i] == *path {
                return Some(i);
            }
            i = i + 1;
        }
        None
    }

    /// Whether `path` is pending.
    pub fn contains(&self, path: &str) -> (held: bool)
        ensures
            held == self@.contains(path@),
    {
        let owned = path.to_owned();
        self.position(&owned).is_some()
    }

    /// Records that a file exists at `path`. Returns whether the path was
    /// new; a path that is already pending is not recorded again.
    pub fn register(&mut self, path: &str) -> (fresh: bool)
        requires
            old(self).wf(),
        ensures
            final(self).wf(),
            fresh == !old(self)@.contains(path@),
            final(self)@ == if fresh {
                old(self)@.push(path@)
            } else {
                old(self)@
            },
    {
        let owned = path.to_owned();
        match self.position(&owned) {
            Some(_) => false,
            None => {
                self.paths.push(owned);
                assert(self@ =~= old(self)@.push(path@));
                true
            },
        }
    }

    /// Takes `path` out of the registry. Returns whether it was pending; the
    /// caller deletes the file in either case, and a file that is already
    /// missing is no error.
    pub fn release(&mut self, path: &str) -> (found: bool)
        requires
            old(self).wf(),
        ensures
            final(self).wf(),
            found == old(self)@.contains(path@),
            final(self)@ == without(old(self)@, path@),
    {
        let owned = path.to_owned();
        proof {
            lemma_without(self@, path@);
        }
        match self.position(&owned) {
            Some(i) => {
                assert(self@.index_of(path@) == i as int);
                self.paths.remove(i);
                assert(self@ =~= old(self)@.remove(i as int));
                true
            },
            None => false,
        }
    }

    /// Empties the registry and hands out every path that was pending, each
    /// once, in the order of registration.
    pub fn drain(&mut self) -> (released: Vec<String>)
        ensures
            texts(released@) == old(self)@,
            final(self)@ == Seq::<Seq<char>>::empty(),
            final(self).wf(),
    {
        let mut released: Vec<String> = Vec::new();
        std::mem::swap(&mut self.paths, &mut released);
        assert(self@ =~= Seq::<Seq<char>>::empty());
        released
    }
}

} // verus!
