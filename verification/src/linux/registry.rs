//! Handle table: which handles are open, and the device behind each.

use vstd::prelude::*;

verus! {

/// One open device together with the handle it was issued under.
struct Slot<D> {
    handle: i32,
    device: D,
}

/// Whether no handle occurs twice among `slots` and each lies in `[0, next)`.
spec fn slots_ok<D>(slots: Seq<Slot<D>>, next: int) -> bool {
    &&& 0 <= next
    &&& forall|i: int| 0 <= i < slots.len() ==> 0 <= (#[trigger] slots[i]).handle < next
    &&& forall|i: int, j: int|
        0 <= i < j < slots.len() ==> (#[trigger] slots[i]).handle != (#[trigger] slots[j]).handle
}

/// Whether some slot of `slots` carries `handle`.
spec fn has_handle<D>(slots: Seq<Slot<D>>, handle: i32) -> bool {
    exists|i: int| 0 <= i < slots.len() && (#[trigger] slots[i]).handle == handle
}

/// A position of `handle` in `slots`; meaningful only where `has_handle`.
spec fn slot_of<D>(slots: Seq<Slot<D>>, handle: i32) -> int {
    choose|i: int| 0 <= i < slots.len() && (#[trigger] slots[i]).handle == handle
}

/// The mapping from handles to devices that `slots` stands for.
spec fn slots_map<D>(slots: Seq<Slot<D>>) -> Map<i32, D> {
    Map::new(|h: i32| has_handle(slots, h), |h: i32| slots[slot_of(slots, h)].device)
}

/// Where handles are distinct, the slot that carries a handle is the one
/// that `slot_of` picks.
proof fn lemma_slot_unique<D>(slots: Seq<Slot<D>>, next: int, i: int)
    requires
        slots_ok(slots, next),
        0 <= i < slots.len(),
    ensures
        has_handle(slots, slots[i].handle),
        slot_of(slots, slots[i].handle) == i,
        slots_map(slots).contains_key(slots[i].handle),
        slots_map(slots)[slots[i].handle] == slots[i].device,
{
    let h = slots[i].handle;
    assert(has_handle(slots, h));
    let k = slot_of(slots, h);
    assert(0 <= k < slots.len() && slots[k].handle == h);
    if k < i {
        assert(slots[k].handle != slots[i].handle);
    } else if i < k {
        assert(slots[i].handle != slots[k].handle);
    }
}

/// Per-peripheral-type table from handles to open devices.
///
/// Handles are issued from a counter that starts at zero and only grows, so
/// a handle is never issued twice, not even after its device was removed.
pub struct Registry<D> {
    next: i32,
    entries: Vec<Slot<D>>,
}

impl<D> View for Registry<D> {
    type V = Map<i32, D>;

    /// The open handles and the device behind each.
    closed spec fn view(&self) -> Map<i32, D> {
        slots_map(self.entries@)
    }
}

impl<D> Registry<D> {
    /// Well-formedness: no handle is open twice, and every open handle was
    /// issued by this table's counter.
    pub closed spec fn wf(&self) -> bool {
        slots_ok(self.entries@, self.next as int)
    }

    /// Every open handle lies below the counter.
    pub proof fn lemma_open_below_next(&self, handle: i32)
        requires
            self.wf(),
            self@.contains_key(handle),
        ensures
            0 <= handle < self.next_handle(),
    {
        let k = slot_of(self.entries@, handle);
        assert(0 <= k < self.entries@.len() && self.entries@[k].handle == handle);
    }

    /// The counter never goes below zero.
    pub proof fn lemma_next_nonnegative(&self)
        requires
            self.wf(),
        ensures
            0 <= self.next_handle() <= i32::MAX,
    {
    }

    /// The handle the next successful allocation returns.
    pub closed spec fn next_handle(&self) -> int {
        self.next as int
    }

    /// An empty table whose first handle will be zero.
    pub fn new() -> (r: Self)
        ensures
            r.wf(),
            r.next_handle() == 0,
            r@ == Map::<i32, D>::empty(),
    {
        let r = Registry { next: 0, entries: Vec::new() };
        assert(r@ =~= Map::<i32, D>::empty());
        r
    }

    /// Issues the next handle, or `None` once the handle space is used up.
    /// The open devices stay as they are.
    pub fn allocate(&mut self) -> (r: Option<i32>)
        requires
            old(self).wf(),
        ensures
            final(self).wf(),
            final(self)@ == old(self)@,
            old(self).next_handle() < i32::MAX ==> r == Some(old(self).next_handle() as i32)
                && final(self).next_handle() == old(self).next_handle() + 1,
            old(self).next_handle() >= i32::MAX ==> r is None && final(self).next_handle() == old(self).next_handle(),
    {
        if self.next < i32::MAX {
            let h: i32 = self.next;
            self.next = h + 1;
            Some(h)
        } else {
            None
        }
    }

    /// The position of `handle` among the entries, if it is open.
    fn position(&self, handle: i32) -> (r: Option<usize>)
        ensures
            match r {
                Some(i) => i < self.entries@.len() && self.entries@[i as int].handle == handle,
                None => !has_handle(self.entries@, handle),
            },
    {
        let n: usize = self.entries.len();
        let mut i: usize = 0;
        while i < n
            invariant
                n == self.entries@.len(),
                i <= n,
                forall|j: int| 0 <= j < i ==> (#[trigger] self.entries@[j]).handle != handle,
            decreases n - i,
        {
            if self.entries[i].handle == handle {
                return Some(i);
            }
            i = i + 1;
        }
        None
    }

    /// Whether `handle` names an open device.
    pub fn contains(&self, handle: i32) -> (r: bool)
        requires
            self.wf(),
        ensures
            r == self@.contains_key(handle),
    {
        self.position(handle).is_some()
    }

    /// The device behind `handle`, if it is open.
    pub fn lookup(&self, handle: i32) -> (r: Option<&D>)
        requires
            self.wf(),
        ensures
            match r {
                Some(d) => self@.contains_key(handle) && *d == self@[handle],
                None => !self@.contains_key(handle),
            },
    {
        match self.position(handle) {
            Some(i) => {
                proof {
                    lemma_slot_unique(self.entries@, self.next as int, i as int);
                }
                Some(&self.entries[i].device)
            },
            None => None,
        }
    }

    /// Mutable access to the device behind `handle`, if it is open. Whatever
    /// the caller leaves in the device is what the table holds afterwards;
    /// the open handles and the counter stay as they are.
    pub fn lookup_mut(&mut self, handle: i32) -> (r: Option<&mut D>)
        requires
            old(self).wf(),
        ensures
            final(self).wf(),
            final(self).next_handle() == old(self).next_handle(),
            match r {
                Some(d) => old(self)@.contains_key(handle) && *d == old(self)@[handle] && final(self)@ == old(self)@.insert(handle, *final(d)),
                None => !old(self)@.contains_key(handle) && final(self)@ == old(self)@,
            },
    {
        match self.position(handle) {
            Some(i) => {
                proof {
                    lemma_slot_unique(self.entries@, self.next as int, i as int);
                }
                let ghost before = self.entries@;
                let ghost next = self.next as int;
                let d = &mut self.entries[i].device;
                proof {
                    let after = before.update(i as int, Slot { handle, device: *final(d) });
                    lemma_update_device(before, next, i as int, *final(d));
                }
                Some(d)
            },
            None => None,
        }
    }

    /// Puts `device` under `handle`. The table takes it exactly when the
    /// handle was issued before and is not open; otherwise the table stays as
    /// it is and the device comes back.
    pub fn insert(&mut self, handle: i32, device: D) -> (r: Option<D>)
        requires
            old(self).wf(),
        ensures
            final(self).wf(),
            final(self).next_handle() == old(self).next_handle(),
            (0 <= handle < old(self).next_handle() && !old(self)@.contains_key(handle)) ==> r is None
                && final(self)@ == old(self)@.insert(handle, device),
            !(0 <= handle < old(self).next_handle() && !old(self)@.contains_key(handle)) ==> r
                == Some(device) && final(self)@ == old(self)@,
    {
        if handle < 0 || handle >= self.next {
            return Some(device);
        }
        if self.position(handle).is_some() {
            return Some(device);
        }
        let ghost before = self.entries@;
        self.entries.push(Slot { handle, device });
        proof {
            lemma_push_slot(before, self.next as int, handle, device);
        }
        None
    }

    /// Closes `handle`: takes its device out of the table and returns it, or
    /// returns `None` where the handle is not open. The counter stays as it
    /// is, so the handle is not issued again.
    pub fn remove(&mut self, handle: i32) -> (r: Option<D>)
        requires
            old(self).wf(),
        ensures
            final(self).wf(),
            final(self).next_handle() == old(self).next_handle(),
            final(self)@ == old(self)@.remove(handle),
            r == (if old(self)@.contains_key(handle) {
                Some(old(self)@[handle])
            } else {
                None
            }),
    {
        match self.position(handle) {
            Some(i) => {
                let ghost before = self.entries@;
                proof {
                    lemma_slot_unique(before, self.next as int, i as int);
                    lemma_remove_slot(before, self.next as int, i as int);
                }
                let slot = self.entries.remove(i);
                Some(slot.device)
            },
            None => {
                assert(self@ =~= self@.remove(handle));
                None
            },
        }
    }

    /// The number of open devices.
    pub fn len(&self) -> (r: usize)
        requires
            self.wf(),
        ensures
            r == self@.dom().len(),
            self@.dom().finite(),
    {
        proof {
            lemma_dom_len(self.entries@, self.next as int);
        }
        self.entries.len()
    }
}

/// The handles of `slots` seen as a set are as many as the slots.
proof fn lemma_dom_len<D>(slots: Seq<Slot<D>>, next: int)
    requires
        slots_ok(slots, next),
    ensures
        slots_map(slots).dom().finite(),
        slots_map(slots).dom().len() == slots.len(),
    decreases slots.len(),
{
    if slots.len() == 0 {
        assert(slots_map(slots).dom() =~= Set::<i32>::empty());
    } else {
        let last = slots.last();
        let rest = slots.drop_last();
        assert(slots_ok(rest, next)) by {
            assert forall|i: int| 0 <= i < rest.len() implies 0 <= (#[trigger] rest[i]).handle
                < next by {
                assert(rest[i] == slots[i]);
            }
            assert forall|i: int, j: int| 0 <= i < j < rest.len() implies (#[trigger] rest[i]).handle
                != (#[trigger] rest[j]).handle by {
                assert(rest[i] == slots[i]);
                assert(rest[j] == slots[j]);
            }
        }
        lemma_dom_len(rest, next);
        assert(!has_handle(rest, last.handle)) by {
            if has_handle(rest, last.handle) {
                let k = slot_of(rest, last.handle);
                assert(rest[k] == slots[k]);
                assert(slots[k].handle != slots[slots.len() - 1].handle);
            }
        }
        assert(slots_map(slots).dom() =~= slots_map(rest).dom().insert(last.handle)) by {
            assert forall|h: i32| has_handle(slots, h) <==> (has_handle(rest, h) || h
                == last.handle) by {
                if has_handle(slots, h) {
                    let k = slot_of(slots, h);
                    if k < rest.len() {
                        assert(rest[k] == slots[k]);
                    }
                }
                if has_handle(rest, h) {
                    let k = slot_of(rest, h);
                    assert(rest[k] == slots[k]);
                }
                if h == last.handle {
                    assert(slots[slots.len() - 1].handle == h);
                }
            }
        }
    }
}

/// Replacing the device of one slot replaces it in the mapping and keeps the
/// slots well formed.
proof fn lemma_update_device<D>(slots: Seq<Slot<D>>, next: int, i: int, device: D)
    requires
        slots_ok(slots, next),
        0 <= i < slots.len(),
    ensures
        slots_ok(slots.update(i, Slot { handle: slots[i].handle, device }), next),
        slots_map(slots.update(i, Slot { handle: slots[i].handle, device })) == slots_map(
            slots,
        ).insert(slots[i].handle, device),
{
    let h = slots[i].handle;
    let after = slots.update(i, Slot { handle: h, device });
    assert(slots_ok(after, next)) by {
        assert forall|a: int| 0 <= a < after.len() implies 0 <= (#[trigger] after[a]).handle
            < next by {
            assert(after[a].handle == slots[a].handle);
        }
        assert forall|a: int, b: int| 0 <= a < b < after.len() implies (#[trigger] after[a]).handle
            != (#[trigger] after[b]).handle by {
            assert(after[a].handle == slots[a].handle);
            assert(after[b].handle == slots[b].handle);
        }
    }
    assert forall|g: i32| has_handle(after, g) == (has_handle(slots, g) || g == h) by {
        if has_handle(after, g) {
            let k = slot_of(after, g);
            assert(slots[k].handle == g);
        }
        if has_handle(slots, g) {
            let k = slot_of(slots, g);
            assert(after[k].handle == g);
        }
        if g == h {
            assert(after[i].handle == g);
        }
    }
    assert forall|g: i32| has_handle(after, g) implies #[trigger] slots_map(after)[g]
        == slots_map(slots).insert(h, device)[g] by {
        let k = slot_of(after, g);
        lemma_slot_unique(after, next, k);
        if g != h {
            assert(k != i);
            assert(slots[k].handle == g);
            lemma_slot_unique(slots, next, k);
        } else {
            lemma_slot_unique(after, next, i);
        }
    }
    assert(slots_map(after) =~= slots_map(slots).insert(h, device));
}

/// Appending a slot whose handle is not yet open adds it to the mapping and
/// keeps the slots well formed.
proof fn lemma_push_slot<D>(slots: Seq<Slot<D>>, next: int, handle: i32, device: D)
    requires
        slots_ok(slots, next),
        0 <= handle < next,
        !has_handle(slots, handle),
    ensures
        slots_ok(slots.push(Slot { handle, device }), next),
        slots_map(slots.push(Slot { handle, device })) == slots_map(slots).insert(handle, device),
{
    let after = slots.push(Slot { handle, device });
    let n = slots.len() as int;
    assert(slots_ok(after, next)) by {
        assert forall|a: int| 0 <= a < after.len() implies 0 <= (#[trigger] after[a]).handle
            < next by {
            if a < n {
                assert(after[a] == slots[a]);
            }
        }
        assert forall|a: int, b: int| 0 <= a < b < after.len() implies (#[trigger] after[a]).handle
            != (#[trigger] after[b]).handle by {
            assert(after[a] == slots[a]);
            if b < n {
                assert(after[b] == slots[b]);
            } else {
                assert(slots[a].handle != handle);
            }
        }
    }
    assert forall|g: i32| has_handle(after, g) == (has_handle(slots, g) || g == handle) by {
        if has_handle(after, g) {
            let k = slot_of(after, g);
            if k < n {
                assert(slots[k].handle == g);
            }
        }
        if has_handle(slots, g) {
            let k = slot_of(slots, g);
            assert(after[k].handle == g);
        }
        if g == handle {
            assert(after[n].handle == g);
        }
    }
    assert forall|g: i32| has_handle(after, g) implies #[trigger] slots_map(after)[g]
        == slots_map(slots).insert(handle, device)[g] by {
        let k = slot_of(after, g);
        lemma_slot_unique(after, next, k);
        if g != handle {
            assert(k < n);
            assert(slots[k].handle == g);
            lemma_slot_unique(slots, next, k);
        } else {
            lemma_slot_unique(after, next, n);
        }
    }
    assert(slots_map(after) =~= slots_map(slots).insert(handle, device));
}

/// Taking one slot out takes its handle out of the mapping and keeps the
/// slots well formed.
proof fn lemma_remove_slot<D>(slots: Seq<Slot<D>>, next: int, i: int)
    requires
        slots_ok(slots, next),
        0 <= i < slots.len(),
    ensures
        slots_ok(slots.remove(i), next),
        slots_map(slots.remove(i)) == slots_map(slots).remove(slots[i].handle),
{
    let h = slots[i].handle;
    let after = slots.remove(i);
    assert forall|a: int| 0 <= a < after.len() implies #[trigger] after[a] == slots[if a < i {
        a
    } else {
        a + 1
    }] by {}
    assert(slots_ok(after, next)) by {
        assert forall|a: int| 0 <= a < after.len() implies 0 <= (#[trigger] after[a]).handle
            < next by {
            let a0 = if a < i { a } else { a + 1 };
            assert(after[a] == slots[a0]);
        }
        assert forall|a: int, b: int| 0 <= a < b < after.len() implies (#[trigger] after[a]).handle
            != (#[trigger] after[b]).handle by {
            let a0 = if a < i { a } else { a + 1 };
            let b0 = if b < i { b } else { b + 1 };
            assert(after[a] == slots[a0]);
            assert(after[b] == slots[b0]);
            assert(slots[a0].handle != slots[b0].handle);
        }
    }
    assert forall|g: i32| has_handle(after, g) == (has_handle(slots, g) && g != h) by {
        if has_handle(after, g) {
            let k = slot_of(after, g);
            let k0 = if k < i { k } else { k + 1 };
            assert(after[k] == slots[k0]);
            assert(slots[k0].handle == g);
            if k0 < i {
                assert(slots[k0].handle != slots[i].handle);
            } else {
                assert(slots[i].handle != slots[k0].handle);
            }
        }
        if has_handle(slots, g) && g != h {
            let k = slot_of(slots, g);
            let k1 = if k < i { k } else { k - 1 };
            assert(after[k1] == slots[k]);
            assert(after[k1].handle == g);
        }
    }
    assert forall|g: i32| has_handle(after, g) implies #[trigger] slots_map(after)[g]
        == slots_map(slots).remove(h)[g] by {
        let k = slot_of(after, g);
        lemma_slot_unique(after, next, k);
        let k0 = if k < i { k } else { k + 1 };
        assert(after[k] == slots[k0]);
        lemma_slot_unique(slots, next, k0);
    }
    assert(slots_map(after) =~= slots_map(slots).remove(h));
}

} // verus!
