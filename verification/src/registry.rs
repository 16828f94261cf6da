//! The watcher registry: correlation id to the handle of a running polling
//! task.
//!
//! Registration replaces any previous entry under the same id; cancellation
//! is idempotent — cancelling an unknown or already-cancelled id does nothing
//! and never touches other entries; teardown empties the registry in one step
//! and hands every handle back so the caller can abort the tasks.

use vstd::prelude::*;

verus! {

/// Caller-minted unique token tying an asynchronous notification stream back
/// to its originating request (the 128-bit value of the id).
pub type CorrelationId = u128;

/// No id occurs twice.
pub open spec fn unique_ids<H>(s: Seq<(CorrelationId, H)>) -> bool {
    forall|i: int, j: int| 0 <= i < j < s.len() ==> s[i].0 != s[j].0
}

/// The mapping an entry sequence denotes (later entries win, but the
/// registry keeps ids unique, so order never matters).
pub open spec fn map_of<H>(s: Seq<(CorrelationId, H)>) -> Map<CorrelationId, H>
    decreases s.len(),
{
    if s.len() == 0 {
        Map::empty()
    } else {
        map_of(s.drop_last()).insert(s.last().0, s.last().1)
    }
}

proof fn lemma_map_of_finite<H>(s: Seq<(CorrelationId, H)>)
    ensures
        map_of(s).dom().finite(),
    decreases s.len(),
{
    if s.len() > 0 {
        lemma_map_of_finite(s.drop_last());
    }
}

proof fn lemma_map_of_contains<H>(s: Seq<(CorrelationId, H)>, k: CorrelationId)
    ensures
        map_of(s).contains_key(k) <==> exists|i: int| 0 <= i < s.len() && s[i].0 == k,
    decreases s.len(),
{
    if s.len() == 0 {
    } else {
        lemma_map_of_contains(s.drop_last(), k);
        if s.last().0 == k {
            assert(s[s.len() - 1].0 == k);
        } else {
            if exists|i: int| 0 <= i < s.len() && s[i].0 == k {
                let i = choose|i: int| 0 <= i < s.len() && s[i].0 == k;
                assert(s.drop_last()[i] == s[i]);
            }
            if exists|i: int| 0 <= i < s.drop_last().len() && s.drop_last()[i].0 == k {
                let i = choose|i: int| 0 <= i < s.drop_last().len() && s.drop_last()[i].0 == k;
                assert(s[i].0 == k);
            }
        }
    }
}

proof fn lemma_map_of_index<H>(s: Seq<(CorrelationId, H)>, i: int)
    requires
        unique_ids(s),
        0 <= i < s.len(),
    ensures
        map_of(s).contains_key(s[i].0),
        map_of(s)[s[i].0] == s[i].1,
    decreases s.len(),
{
    if i == s.len() - 1 {
    } else {
        assert(s.drop_last()[i] == s[i]);
        lemma_map_of_index(s.drop_last(), i);
        assert(s.last().0 != s[i].0);
    }
}

proof fn lemma_map_of_len<H>(s: Seq<(CorrelationId, H)>)
    requires
        unique_ids(s),
    ensures
        map_of(s).len() == s.len(),
    decreases s.len(),
{
    if s.len() > 0 {
        lemma_map_of_len(s.drop_last());
        lemma_map_of_contains(s.drop_last(), s.last().0);
        lemma_map_of_finite(s.drop_last());
        assert(forall|i: int|
            0 <= i < s.drop_last().len() ==> s.drop_last()[i] == s[i]);
        assert(!map_of(s.drop_last()).contains_key(s.last().0));
    }
}

proof fn lemma_map_of_remove<H>(s: Seq<(CorrelationId, H)>, i: int)
    requires
        unique_ids(s),
        0 <= i < s.len(),
    ensures
        map_of(s.remove(i)) =~= map_of(s).remove(s[i].0),
        unique_ids(s.remove(i)),
        forall|j: int| 0 <= j < s.remove(i).len() ==> s.remove(i)[j].0 != s[i].0,
    decreases s.len(),
{
    lemma_map_of_finite(s);
    if i == s.len() - 1 {
        assert(s.remove(i) =~= s.drop_last());
        lemma_map_of_contains(s.drop_last(), s.last().0);
        assert(!map_of(s.drop_last()).contains_key(s.last().0));
        assert(map_of(s.drop_last()).insert(s.last().0, s.last().1).remove(s.last().0) =~= map_of(
            s.drop_last(),
        ));
    } else {
        assert(s.remove(i).drop_last() =~= s.drop_last().remove(i));
        assert(s.remove(i).last() == s.last());
        lemma_map_of_remove(s.drop_last(), i);
        assert(s.drop_last()[i] == s[i]);
        assert(s.last().0 != s[i].0);
        assert(map_of(s.remove(i)) =~= map_of(s.drop_last().remove(i)).insert(
            s.last().0,
            s.last().1,
        ));
        assert(map_of(s.drop_last()).remove(s[i].0).insert(s.last().0, s.last().1) =~= map_of(
            s.drop_last(),
        ).insert(s.last().0, s.last().1).remove(s[i].0));
    }
}

/// Law: cancelling a watcher id is idempotent and local. Cancelling an id
/// twice leaves the registry exactly as cancelling it once does; cancelling
/// an id that was never registered changes nothing; and either way no other
/// watcher is affected — registered ids other than the cancelled one keep
/// their handles. [`WatcherRegistry::cancel`] takes the registry's mapping
/// from `m` to `m.remove(id)` and never errors, so these equations are what
/// any sequence of cancellations observes.
pub proof fn lemma_cancel_idempotent<H>(
    m: Map<CorrelationId, H>,
    id: CorrelationId,
    other: CorrelationId,
)
    ensures
        m.remove(id).remove(id) == m.remove(id),
        !m.contains_key(id) ==> m.remove(id) == m,
        other != id ==> m.remove(id).contains_key(other) == m.contains_key(other),
        other != id && m.contains_key(other) ==> m.remove(id)[other] == m[other],
{
    assert(m.remove(id).remove(id) =~= m.remove(id));
    if !m.contains_key(id) {
        assert(m.remove(id) =~= m);
    }
}

/// A concurrent map from correlation id to a cancellable background task,
/// modelled as its entry list; the ids stay unique.
pub struct WatcherRegistry<H> {
    pub entries: Vec<(CorrelationId, H)>,
}

impl<H> WatcherRegistry<H> {
    /// The registered watchers as a mapping from id to handle.
    pub open spec fn view(&self) -> Map<CorrelationId, H> {
        map_of(self.entries@)
    }

    /// The registry's invariant: one entry per id.
    pub open spec fn wf(&self) -> bool {
        unique_ids(self.entries@)
    }

    /// An empty registry.
    pub fn new() -> (r: WatcherRegistry<H>)
        ensures
            r.wf(),
            r.view() == Map::<CorrelationId, H>::empty(),
    {
        WatcherRegistry { entries: Vec::new() }
    }

    fn find(&self, id: CorrelationId) -> (r: Option<usize>)
        requires
            self.wf(),
        ensures
            match r {
                Some(i) => i < self.entries@.len() && self.entries@[i as int].0 == id,
                None => forall|j: int| 0 <= j < self.entries@.len() ==> self.entries@[j].0 != id,
            },
    {
        let mut i: usize = 0;
        while i < self.entries.len()
            invariant
                i <= self.entries@.len(),
                forall|j: int| 0 <= j < i ==> self.entries@[j].0 != id,
            decreases self.entries@.len() - i,
        {
            if self.entries[i].0 == id {
                return Some(i);
            }
            i = i + 1;
        }
        None
    }

    /// Whether a watcher is registered under `id`.
    pub fn contains(&self, id: CorrelationId) -> (r: bool)
        requires
            self.wf(),
        ensures
            r == self.view().contains_key(id),
    {
        proof {
            lemma_map_of_contains(self.entries@, id);
        }
        self.find(id).is_some()
    }

    /// How many watchers are registered.
    pub fn active_count(&self) -> (r: usize)
        requires
            self.wf(),
        ensures
            r == self.view().len(),
    {
        proof {
            lemma_map_of_len(self.entries@);
        }
        self.entries.len()
    }

    /// Registers the task handle for `id`; an entry already under that id is
    /// replaced and its handle returned.
    pub fn register(&mut self, id: CorrelationId, handle: H) -> (replaced: Option<H>)
        requires
            old(self).wf(),
        ensures
            final(self).wf(),
            final(self).view() == old(self).view().insert(id, handle),
            replaced == (if old(self).view().contains_key(id) {
                Some(old(self).view()[id])
            } else {
                None::<H>
            }),
    {
        proof {
            lemma_map_of_contains(self.entries@, id);
        }
        let replaced: Option<H> = match self.find(id) {
            Some(i) => {
                proof {
                    lemma_map_of_index(self.entries@, i as int);
                    lemma_map_of_remove(self.entries@, i as int);
                }
                let (_, h) = self.entries.remove(i);
                Some(h)
            },
            None => None,
        };
        let ghost removed: Seq<(CorrelationId, H)> = self.entries@;
        self.entries.push((id, handle));
        proof {
            assert(self.entries@.drop_last() =~= removed);
            assert(forall|j: int| 0 <= j < removed.len() ==> removed[j].0 != id);
            assert(unique_ids(self.entries@));
            assert(map_of(self.entries@) =~= old(self).view().insert(id, handle));
        }
        replaced
    }

    /// Cancels the watcher registered under `id`, handing its task handle
    /// back for abortion. Idempotent: an unknown or already-cancelled id
    /// returns nothing, and other watchers are never affected either way.
    pub fn cancel(&mut self, id: CorrelationId) -> (h: Option<H>)
        requires
            old(self).wf(),
        ensures
            final(self).wf(),
            final(self).view() == old(self).view().remove(id),
            h == (if old(self).view().contains_key(id) {
                Some(old(self).view()[id])
            } else {
                None::<H>
            }),
            !old(self).view().contains_key(id) ==> final(self).view() == old(self).view(),
    {
        proof {
            lemma_map_of_contains(self.entries@, id);
        }
        match self.find(id) {
            Some(i) => {
                proof {
                    lemma_map_of_index(self.entries@, i as int);
                    lemma_map_of_remove(self.entries@, i as int);
                }
                let (_, h) = self.entries.remove(i);
                Some(h)
            },
            None => {
                proof {
                    lemma_map_of_finite(self.entries@);
                    assert(old(self).view().remove(id) =~= old(self).view());
                }
                None
            },
        }
    }

    /// Empties the registry in one step and hands every handle back, in
    /// registration order, so the caller can abort the tasks.
    pub fn cancel_all(&mut self) -> (handles: Vec<H>)
        requires
            old(self).wf(),
        ensures
            final(self).wf(),
            final(self).view() == Map::<CorrelationId, H>::empty(),
            handles@ == old(self).entries@.map_values(|e: (CorrelationId, H)| e.1),
            handles@.len() == old(self).view().len(),
    {
        proof {
            lemma_map_of_len(self.entries@);
        }
        let mut handles: Vec<H> = Vec::new();
        let ghost all: Seq<(CorrelationId, H)> = self.entries@;
        while self.entries.len() > 0
            invariant
                handles@.len() + self.entries@.len() == all.len(),
                handles@ == all.take(handles@.len() as int).map_values(
                    |e: (CorrelationId, H)| e.1,
                ),
                self.entries@ == all.skip(handles@.len() as int),
            decreases self.entries@.len(),
        {
            let (_, h) = self.entries.remove(0);
            handles.push(h);
            proof {
                assert(handles@ =~= all.take(handles@.len() as int).map_values(
                    |e: (CorrelationId, H)| e.1,
                ));
                assert(self.entries@ =~= all.skip(handles@.len() as int));
            }
        }
        proof {
            assert(handles@ =~= all.map_values(|e: (CorrelationId, H)| e.1));
            assert(map_of(self.entries@) =~= Map::<CorrelationId, H>::empty());
        }
        handles
    }
}

} // verus!
