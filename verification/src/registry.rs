use vstd::prelude::*;

verus! {

/// Whether some entry of `s` carries the handle `h`.
pub open spec fn has_handle(s: Seq<(u64, u64)>, h: u64) -> bool {
    exists|i: int| 0 <= i < s.len() && s[i].0 == h
}

/// The process-wide table mapping a native connection handle to the runtime
/// instance that owns it.  A runtime instance is named here by an opaque
/// instance token chosen by the embedding application; the table is consulted
/// from collaborator-invoked callbacks that receive only the bare handle.
///
/// The embedding application keeps exactly one such table and serialises
/// access to it behind one mutual-exclusion lock, held only across the table
/// operation itself.  Insertion fails loudly on a handle collision rather
/// than overwriting the previous owner.
pub struct ContextRegistry {
    entries: Vec<(u64, u64)>,
}

impl ContextRegistry {
    /// The table's entries, as (handle, instance token) pairs.
    pub closed spec fn entries_seq(self) -> Seq<(u64, u64)> {
        self.entries@
    }

    /// Well-formed: no handle occurs twice.
    pub open spec fn wf(self) -> bool {
        forall|i: int, j: int|
            0 <= i < j < self.entries_seq().len() ==> self.entries_seq()[i].0
                != self.entries_seq()[j].0
    }

    /// The instance token owning `h`, if any.
    pub open spec fn spec_lookup(self, h: u64) -> Option<u64> {
        if has_handle(self.entries_seq(), h) {
            let i = choose|i: int|
                0 <= i < self.entries_seq().len() && self.entries_seq()[i].0 == h;
            Some(self.entries_seq()[i].1)
        } else {
            None
        }
    }

    pub fn new() -> (r: Self)
        ensures
            r.wf(),
            r.entries_seq() =~= Seq::<(u64, u64)>::empty(),
    {
        ContextRegistry { entries: Vec::new() }
    }

    /// Scan for the entry that carries `handle`.
    fn find(&self, handle: u64) -> (r: Option<usize>)
        ensures
            match r {
                Some(i) => 0 <= i < self.entries_seq().len() && self.entries_seq()[i as int].0
                    == handle,
                None => !has_handle(self.entries_seq(), handle),
            },
    {
        let mut i: usize = 0;
        while i < self.entries.len()
            invariant
                i <= self.entries@.len(),
                forall|j: int| 0 <= j < i ==> self.entries@[j].0 != handle,
            decreases self.entries@.len() - i,
        {
            if self.entries[i].0 == handle {
                return Some(i);
            }
            i = i + 1;
        }
        None
    }

    /// Look the owning instance up from the bare handle, as the
    /// collaborator-invoked callbacks must.
    pub fn lookup(&self, handle: u64) -> (r: Option<u64>)
        requires
            self.wf(),
        ensures
            r == self.spec_lookup(handle),
    {
        match self.find(handle) {
            Some(i) => {
                proof {
                    let w = choose|w: int|
                        0 <= w < self.entries_seq().len() && self.entries_seq()[w].0 == handle;
                    assert(w == i);
                }
                Some(self.entries[i].1)
            },
            None => None,
        }
    }

    /// Register `instance` as the owner of `handle`.  Fails, leaving the
    /// table unchanged, if the handle already has an owner: a handle may be
    /// re-registered only after the previous owner's teardown removed it.
    pub fn insert(&mut self, handle: u64, instance: u64) -> (ok: bool)
        requires
            old(self).wf(),
        ensures
            final(self).wf(),
            ok <==> old(self).spec_lookup(handle) is None,
            ok ==> final(self).entries_seq() =~= old(self).entries_seq().push(
                (handle, instance),
            ) && final(self).spec_lookup(handle) == Some(instance),
            !ok ==> *final(self) == *old(self),
            forall|h: u64|
                h != handle ==> final(self).spec_lookup(h) == old(self).spec_lookup(h),
    {
        match self.find(handle) {
            Some(_) => {
                proof {
                    lemma_lookup_some(*self, handle);
                }
                false
            },
            None => {
                self.entries.push((handle, instance));
                proof {
                    let s = self.entries_seq();
                    assert(s[s.len() - 1].0 == handle);
                    lemma_lookup_some(*self, handle);
                    assert(self.spec_lookup(handle) == Some(instance));
                    assert forall|h: u64| h != handle implies self.spec_lookup(h) == old(
                        self,
                    ).spec_lookup(h) by {
                        lemma_lookup_frame(*old(self), *self, (handle, instance), h);
                    }
                }
                true
            },
        }
    }

    /// Remove the entry for `handle`, if any; called during the owning
    /// instance's teardown, before the handle is released.
    pub fn remove(&mut self, handle: u64) -> (was_present: bool)
        requires
            old(self).wf(),
        ensures
            final(self).wf(),
            was_present <==> old(self).spec_lookup(handle) is Some,
            final(self).spec_lookup(handle) is None,
            forall|h: u64|
                h != handle ==> final(self).spec_lookup(h) == old(self).spec_lookup(h),
    {
        match self.find(handle) {
            Some(i) => {
                proof {
                    lemma_lookup_some(*self, handle);
                }
                self.entries.remove(i);
                proof {
                    lemma_remove_keeps_wf(*old(self), *self, i as int);
                    assert forall|h: u64| h != handle implies self.spec_lookup(h) == old(
                        self,
                    ).spec_lookup(h) by {
                        lemma_lookup_remove_frame(*old(self), *self, i as int, h);
                    }
                    assert(!has_handle(self.entries_seq(), handle)) by {
                        assert forall|w: int|
                            0 <= w < self.entries_seq().len() implies self.entries_seq()[w].0
                            != handle by {
                            if w < i {
                            } else {
                                assert(self.entries_seq()[w] == old(self).entries_seq()[w + 1]);
                            }
                        }
                    }
                }
                true
            },
            None => false,
        }
    }
}

/// In a well-formed table, any entry that carries `h` decides `spec_lookup`.
pub proof fn lemma_lookup_some(r: ContextRegistry, h: u64)
    requires
        r.wf(),
        has_handle(r.entries_seq(), h),
    ensures
        forall|i: int|
            0 <= i < r.entries_seq().len() && r.entries_seq()[i].0 == h ==> r.spec_lookup(h)
                == Some(r.entries_seq()[i].1),
{
    let w = choose|w: int| 0 <= w < r.entries_seq().len() && r.entries_seq()[w].0 == h;
    assert forall|i: int|
        0 <= i < r.entries_seq().len() && r.entries_seq()[i].0 == h implies r.spec_lookup(h)
        == Some(r.entries_seq()[i].1) by {
        assert(i == w);
    }
}

/// At most one runtime instance is resolvable from any handle: any two
/// entries of a well-formed table that carry the same handle are the same
/// entry, so `spec_lookup` names the unique owner.
pub proof fn lemma_at_most_one_instance(r: ContextRegistry, h: u64, i: int, j: int)
    requires
        r.wf(),
        0 <= i < r.entries_seq().len(),
        0 <= j < r.entries_seq().len(),
        r.entries_seq()[i].0 == h,
        r.entries_seq()[j].0 == h,
    ensures
        i == j,
        r.spec_lookup(h) == Some(r.entries_seq()[i].1),
{
    lemma_lookup_some(r, h);
}

proof fn lemma_remove_keeps_wf(before: ContextRegistry, after: ContextRegistry, i: int)
    requires
        before.wf(),
        0 <= i < before.entries_seq().len(),
        after.entries_seq() =~= before.entries_seq().remove(i),
    ensures
        after.wf(),
{
    let sa = after.entries_seq();
    let sb = before.entries_seq();
    assert forall|a: int, b: int| 0 <= a < b < sa.len() implies sa[a].0 != sa[b].0 by {
        let a0 = if a < i { a } else { a + 1 };
        let b0 = if b < i { b } else { b + 1 };
        assert(sa[a] == sb[a0]);
        assert(sa[b] == sb[b0]);
    }
}

proof fn lemma_lookup_frame(before: ContextRegistry, after: ContextRegistry, p: (u64, u64), h: u64)
    requires
        before.wf(),
        after.wf(),
        after.entries_seq() =~= before.entries_seq().push(p),
        p.0 != h,
    ensures
        after.spec_lookup(h) == before.spec_lookup(h),
{
    let sa = after.entries_seq();
    let sb = before.entries_seq();
    if has_handle(sb, h) {
        let w = choose|w: int| 0 <= w < sb.len() && sb[w].0 == h;
        assert(sa[w].0 == h);
        lemma_lookup_some(before, h);
        lemma_lookup_some(after, h);
    } else {
        assert forall|w: int| 0 <= w < sa.len() implies sa[w].0 != h by {
            if w < sb.len() {
                assert(sa[w] == sb[w]);
            }
        }
    }
}

proof fn lemma_lookup_remove_frame(before: ContextRegistry, after: ContextRegistry, i: int, h: u64)
    requires
        before.wf(),
        after.wf(),
        0 <= i < before.entries_seq().len(),
        after.entries_seq() =~= before.entries_seq().remove(i),
        before.entries_seq()[i].0 != h,
    ensures
        after.spec_lookup(h) == before.spec_lookup(h),
{
    let sa = after.entries_seq();
    let sb = before.entries_seq();
    if has_handle(sb, h) {
        let w = choose|w: int| 0 <= w < sb.len() && sb[w].0 == h;
        if w < i {
            assert(sa[w].0 == h);
        } else {
            assert(w != i);
            assert(sa[w - 1] == sb[w]);
            assert(sa[w - 1].0 == h);
        }
        lemma_lookup_some(before, h);
        lemma_lookup_some(after, h);
        let wa = choose|wa: int| 0 <= wa < sa.len() && sa[wa].0 == h;
        if wa < i {
            assert(sa[wa] == sb[wa]);
        } else {
            assert(sa[wa] == sb[wa + 1]);
        }
    } else {
        assert forall|w: int| 0 <= w < sa.len() implies sa[w].0 != h by {
            if w < i {
                assert(sa[w] == sb[w]);
            } else {
                assert(sa[w] == sb[w + 1]);
            }
        }
    }
}

} // verus!
