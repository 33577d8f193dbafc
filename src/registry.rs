//! Table from opaque integer handles to live sessions.
use vstd::prelude::*;

verus! {

/// Sessions addressed by handle. Handles are issued in increasing order,
/// starting at 1, and never issued twice, even after removal.
pub struct SessionRegistry<S> {
    /// The last handle issued; zero before the first.
    pub last_handle: i64,
    /// Live entries, oldest first.
    pub entries: Vec<(i64, S)>,
}

/// Whether some entry of `entries` has handle `h`.
pub open spec fn has_handle<S>(entries: Seq<(i64, S)>, h: i64) -> bool {
    exists|i: int| 0 <= i < entries.len() && entries[i].0 == h
}

/// `new` is `old` after issuing handle `h` for one new entry.
pub open spec fn created<S>(old: SessionRegistry<S>, new: SessionRegistry<S>, h: i64) -> bool {
    &&& h == old.last_handle + 1
    &&& new.last_handle == h
    &&& new.entries@.len() == old.entries@.len() + 1
    &&& new.entries@.drop_last() == old.entries@
    &&& new.entries@.last().0 == h
}

/// `new` is `old` with the entry of handle `h` removed, if there was one.
pub open spec fn destroyed<S>(old: SessionRegistry<S>, new: SessionRegistry<S>, h: i64) -> bool {
    &&& new.last_handle == old.last_handle
    &&& if has_handle(old.entries@, h) {
        exists|i: int|
            0 <= i < old.entries@.len() && old.entries@[i].0 == h && new.entries@
                == old.entries@.remove(i)
    } else {
        new.entries@ == old.entries@
    }
}

impl<S> SessionRegistry<S> {
    /// Handles of live entries are distinct and lie in `1..=last_handle`.
    pub open spec fn wf(&self) -> bool {
        &&& self.last_handle >= 0
        &&& forall|i: int|
            0 <= i < self.entries@.len() ==> 1 <= #[trigger] self.entries@[i].0
                <= self.last_handle
        &&& forall|i: int, j: int|
            0 <= i < j < self.entries@.len() ==> self.entries@[i].0 != self.entries@[j].0
    }

    /// An empty registry that has issued no handle.
    pub fn new() -> (r: SessionRegistry<S>)
        ensures
            r.wf(),
            r.last_handle == 0,
            r.entries@.len() == 0,
    {
        SessionRegistry { last_handle: 0, entries: Vec::new() }
    }

    /// Number of live entries.
    pub fn len(&self) -> (r: usize)
        ensures
            r == self.entries@.len(),
    {
        self.entries.len()
    }

    fn index_of(&self, handle: i64) -> (r: Option<usize>)
        ensures
            r is Some <==> has_handle(self.entries@, handle),
            r matches Some(i) ==> i < self.entries@.len() && self.entries@[i as int].0 == handle,
    {
        let mut i: usize = 0;
        while i < self.entries.len()
            invariant
                i <= self.entries@.len(),
                forall|k: int| 0 <= k < i ==> self.entries@[k].0 != handle,
            decreases self.entries@.len() - i,
        {
            if self.entries[i].0 == handle {
                return Some(i);
            }
            i = i + 1;
        }
        None
    }

    /// Stores `session` under the next handle, which it returns.
    pub fn create(&mut self, session: S) -> (r: i64)
        requires
            old(self).wf(),
            old(self).last_handle < i64::MAX,
        ensures
            final(self).wf(),
            created(*old(self), *final(self), r),
            final(self).entries@.last().1 == session,
            !has_handle(old(self).entries@, r),
    {
        let h = self.last_handle + 1;
        self.last_handle = h;
        self.entries.push((h, session));
        assert(self.entries@.drop_last() =~= old(self).entries@);
        assert(forall|i: int| 0 <= i < old(self).entries@.len() ==> self.entries@[i] == old(self).entries@[i]);
        h
    }

    /// Whether `handle` addresses a live entry.
    pub fn contains(&self, handle: i64) -> (r: bool)
        ensures
            r == has_handle(self.entries@, handle),
    {
        self.index_of(handle).is_some()
    }

    /// The session under `handle`, if any.
    pub fn lookup(&self, handle: i64) -> (r: Option<&S>)
        ensures
            r is Some <==> has_handle(self.entries@, handle),
            r matches Some(s) ==> exists|i: int|
                0 <= i < self.entries@.len() && self.entries@[i].0 == handle && self.entries@[i].1
                    == *s,
    {
        match self.index_of(handle) {
            Some(i) => Some(&self.entries[i].1),
            None => None,
        }
    }

    /// Removes the entry of `handle` and hands its session back; `None` when
    /// no entry has that handle. The handle is not issued again.
    pub fn destroy(&mut self, handle: i64) -> (r: Option<S>)
        requires
            old(self).wf(),
        ensures
            final(self).wf(),
            destroyed(*old(self), *final(self), handle),
            r is Some <==> has_handle(old(self).entries@, handle),
            r matches Some(s) ==> exists|i: int|
                0 <= i < old(self).entries@.len() && old(self).entries@[i].0 == handle
                    && old(self).entries@[i].1 == s,
    {
        match self.index_of(handle) {
            Some(i) => {
                let (_, s) = self.entries.remove(i);
                proof {
                    let o = old(self).entries@;
                    assert(self.entries@ == o.remove(i as int));
                    assert forall|a: int| 0 <= a < self.entries@.len() implies 1
                        <= #[trigger] self.entries@[a].0 <= self.last_handle by {
                        let a2 = if a < i { a } else { a + 1 };
                        assert(self.entries@[a] == o[a2]);
                    }
                    assert forall|a: int, b: int|
                        0 <= a < b < self.entries@.len() implies self.entries@[a].0
                        != self.entries@[b].0 by {
                        let a2 = if a < i { a } else { a + 1 };
                        let b2 = if b < i { b } else { b + 1 };
                        assert(self.entries@[a] == o[a2]);
                        assert(self.entries@[b] == o[b2]);
                    }
                }
                Some(s)
            },
            None => None,
        }
    }
}

/// Two handles issued one after the other differ, and a handle issued after
/// a removal differs from the removed one: handles never collide.
pub proof fn lemma_handles_never_collide<S>(
    r0: SessionRegistry<S>,
    r1: SessionRegistry<S>,
    r2: SessionRegistry<S>,
    h1: i64,
    h2: i64,
)
    requires
        r0.wf(),
        created(r0, r1, h1),
        created(r1, r2, h2),
    ensures
        h1 != h2,
        h1 < h2,
        !has_handle(r0.entries@, h1),
        !has_handle(r1.entries@, h2),
{
    assert forall|i: int| 0 <= i < r1.entries@.len() implies r1.entries@[i].0 != h2 by {
        if i < r0.entries@.len() {
            assert(r1.entries@[i] == r1.entries@.drop_last()[i]);
            assert(r0.entries@[i].0 <= r0.last_handle);
        }
    }
}

/// A handle issued after the entry of `gone` was removed is not `gone`.
pub proof fn lemma_removed_handle_not_reissued<S>(
    r0: SessionRegistry<S>,
    r1: SessionRegistry<S>,
    r2: SessionRegistry<S>,
    gone: i64,
    h: i64,
)
    requires
        r0.wf(),
        has_handle(r0.entries@, gone),
        destroyed(r0, r1, gone),
        created(r1, r2, h),
    ensures
        h != gone,
{
}

/// Whether each step of `rs` issues a handle (the matching entry of `hs`)
/// or removes an entry.
pub open spec fn registry_history<S>(rs: Seq<SessionRegistry<S>>, hs: Seq<Option<i64>>) -> bool {
    &&& hs.len() + 1 == rs.len()
    &&& forall|k: int|
        0 <= k < hs.len() ==> match #[trigger] hs[k] {
            Some(h) => created(rs[k], rs[k + 1], h),
            None => exists|g: i64| #[trigger] destroyed(rs[k], rs[k + 1], g),
        }
}

proof fn lemma_last_handle_grows<S>(
    rs: Seq<SessionRegistry<S>>,
    hs: Seq<Option<i64>>,
    i: int,
    j: int,
)
    requires
        registry_history(rs, hs),
        0 <= i <= j < rs.len(),
    ensures
        rs[i].last_handle <= rs[j].last_handle,
    decreases j - i,
{
    if i < j {
        lemma_last_handle_grows(rs, hs, i, j - 1);
        match hs[j - 1] {
            Some(h) => {},
            None => {},
        }
    }
}

/// Over any run of creates and removals, the handles issued are strictly
/// increasing: no two creates ever hand out the same handle.
pub proof fn lemma_issued_handles_increase<S>(
    rs: Seq<SessionRegistry<S>>,
    hs: Seq<Option<i64>>,
    i: int,
    j: int,
)
    requires
        registry_history(rs, hs),
        0 <= i < j < hs.len(),
        hs[i] is Some,
        hs[j] is Some,
    ensures
        hs[i]->0 < hs[j]->0,
{
    assert(created(rs[i], rs[i + 1], hs[i]->0));
    assert(created(rs[j], rs[j + 1], hs[j]->0));
    lemma_last_handle_grows(rs, hs, i + 1, j);
}

} // verus!
