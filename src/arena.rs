//! Generational storage for render resources, addressed by stable handles.
use vstd::prelude::*;

use crate::destroy::released;
use crate::destroy::retained;
use crate::destroy::DeferredDestroyQueue;
use crate::destroy::DestroyEntry;

verus! {

/// A stable reference to a resource: its slot and the slot's generation when
/// the resource was added. Copyable, and it owns nothing.
#[derive(Clone, Copy, Debug, PartialEq, Eq, Structural)]
pub struct Handle {
    pub index: usize,
    pub generation: u64,
}

/// What a slot of an arena holds.
pub enum SlotState<T> {
    /// A live resource, visible to lookups.
    Occupied(T),
    /// Its resource was removed and waits in the destroy queue; the slot
    /// cannot be reused until the resource is freed.
    Retiring,
    /// Ready to be reused under its current generation.
    Free,
}

pub struct Slot<T> {
    pub state: SlotState<T>,
    pub generation: u64,
}

/// What a lookup through `h` finds in `s`.
pub open spec fn lookup_in<T>(s: Seq<Slot<T>>, h: Handle) -> Option<T> {
    if h.index < s.len() && s[h.index as int].generation == h.generation {
        match s[h.index as int].state {
            SlotState::Occupied(v) => Some(v),
            _ => None,
        }
    } else {
        None
    }
}

/// `h` can never see a resource again: its slot has moved to a later
/// generation, or the resource it named was removed.
pub open spec fn is_dead<T>(s: Seq<Slot<T>>, h: Handle) -> bool {
    &&& h.index < s.len()
    &&& (h.generation < s[h.index as int].generation || (h.generation
        == s[h.index as int].generation && s[h.index as int].state is Retiring))
}

/// From `s1` to `s2` no slot disappears, no generation goes back, and every
/// dead handle stays dead.
pub open spec fn handles_stay_dead<T>(s1: Seq<Slot<T>>, s2: Seq<Slot<T>>) -> bool {
    &&& s1.len() <= s2.len()
    &&& forall|i: int| 0 <= i < s1.len() ==> s1[i].generation <= #[trigger] s2[i].generation
    &&& forall|h: Handle| is_dead(s1, h) ==> #[trigger] is_dead(s2, h)
}

/// Some entry of `r` hands slot `i` back for reuse.
pub open spec fn frees_slot<T>(r: Seq<DestroyEntry<T>>, i: int) -> bool {
    exists|k: int| 0 <= k < r.len() && #[trigger] r[k].slot == Some(i as usize)
}

/// A slot after a cleanup pass: a retiring slot whose resource was freed moves
/// to the next generation and becomes free, unless its generation is spent,
/// in which case it is never reused.
pub open spec fn slot_after_cleanup<T>(s: Slot<T>, freed: bool) -> Slot<T> {
    if freed && s.state is Retiring && s.generation < u64::MAX {
        Slot { state: SlotState::Free, generation: (s.generation + 1) as u64 }
    } else {
        s
    }
}

/// A dead handle finds nothing.
pub proof fn lemma_dead_handle_finds_nothing<T>(s: Seq<Slot<T>>, h: Handle)
    requires
        is_dead(s, h),
    ensures
        lookup_in(s, h) is None,
{
}

/// Once a slot's generation has moved past a handle's, that handle finds
/// nothing in any later state, even after the slot is reused.
pub proof fn lemma_outlived_handle_stays_stale<T>(s1: Seq<Slot<T>>, s2: Seq<Slot<T>>, h: Handle)
    requires
        h.index < s1.len(),
        h.generation < s1[h.index as int].generation,
        handles_stay_dead(s1, s2),
    ensures
        h.generation < s2[h.index as int].generation,
        lookup_in(s2, h) is None,
{
    assert(is_dead(s1, h));
    assert(is_dead(s2, h));
    assert(s1[h.index as int].generation <= s2[h.index as int].generation);
}

/// Generational storage of one resource kind, with its deferred-destroy queue.
pub struct ResourceArena<T> {
    slots: Vec<Slot<T>>,
    queue: DeferredDestroyQueue<T>,
}

impl<T> ResourceArena<T> {
    pub closed spec fn slots(&self) -> Seq<Slot<T>> {
        self.slots@
    }

    /// The removed resources not yet freed, oldest first.
    pub closed spec fn pending(&self) -> Seq<DestroyEntry<T>> {
        self.queue.entries()
    }

    /// The number of frames that may be in flight at once.
    pub closed spec fn frames(&self) -> usize {
        self.queue.frames()
    }

    pub closed spec fn wf(&self) -> bool {
        self.queue.wf()
    }

    pub open spec fn lookup_spec(&self, h: Handle) -> Option<T> {
        lookup_in(self.slots(), h)
    }

    /// An empty arena for a ring of `frames` frames in flight.
    pub fn new(frames: usize) -> (r: Self)
        requires
            frames >= 1,
        ensures
            r.wf(),
            r.frames() == frames,
            r.slots() == Seq::<Slot<T>>::empty(),
            r.pending() == Seq::<DestroyEntry<T>>::empty(),
    {
        ResourceArena { slots: Vec::new(), queue: DeferredDestroyQueue::new(frames) }
    }

    pub fn frames_in_flight(&self) -> (r: usize)
        requires
            self.wf(),
        ensures
            r == self.frames(),
            r >= 1,
    {
        self.queue.frames_in_flight()
    }

    /// The number of slots, live or not.
    pub fn slot_count(&self) -> (r: usize)
        ensures
            r == self.slots().len(),
    {
        self.slots.len()
    }

    /// The number of removed resources still waiting to be freed.
    pub fn pending_count(&self) -> (r: usize)
        ensures
            r == self.pending().len(),
    {
        self.queue.len()
    }

    /// The current generation of slot `index`.
    pub fn generation(&self, index: usize) -> (r: Option<u64>)
        ensures
            index < self.slots().len() ==> r == Some(self.slots()[index as int].generation),
            index >= self.slots().len() ==> r is None,
    {
        if index < self.slots.len() {
            Some(self.slots[index].generation)
        } else {
            None
        }
    }

    /// Stores `value` in the lowest free slot, or in a new slot when none is
    /// free, and returns its handle, which is valid at once.
    pub fn add(&mut self, value: T) -> (r: Handle)
        requires
            old(self).wf(),
            old(self).slots().len() < usize::MAX,
        ensures
            final(self).wf(),
            final(self).frames() == old(self).frames(),
            final(self).pending() == old(self).pending(),
            final(self).lookup_spec(r) == Some(value),
            r.index <= old(self).slots().len(),
            forall|j: int| 0 <= j < r.index ==> !(#[trigger] old(self).slots()[j].state is Free),
            r.index < old(self).slots().len() ==> {
                &&& old(self).slots()[r.index as int].state is Free
                &&& r.generation == old(self).slots()[r.index as int].generation
                &&& final(self).slots() == old(self).slots().update(
                    r.index as int,
                    Slot { state: SlotState::Occupied(value), generation: r.generation },
                )
            },
            r.index == old(self).slots().len() ==> {
                &&& r.generation == 0
                &&& final(self).slots() == old(self).slots().push(
                    Slot { state: SlotState::Occupied(value), generation: 0 },
                )
            },
            handles_stay_dead(old(self).slots(), final(self).slots()),
    {
        match self.first_free() {
            Some(i) => {
                let generation = self.slots[i].generation;
                self.slots.set(i, Slot { state: SlotState::Occupied(value), generation });
                Handle { index: i, generation }
            },
            None => {
                let index = self.slots.len();
                self.slots.push(Slot { state: SlotState::Occupied(value), generation: 0 });
                Handle { index, generation: 0 }
            },
        }
    }

    /// The resource behind `h`, or `None` when `h` is stale or its resource
    /// was removed.
    pub fn lookup(&self, h: Handle) -> (r: Option<&T>)
        ensures
            match r {
                Some(v) => self.lookup_spec(h) == Some(*v),
                None => self.lookup_spec(h) is None,
            },
    {
        if h.index < self.slots.len() && self.slots[h.index].generation == h.generation {
            match &self.slots[h.index].state {
                SlotState::Occupied(v) => Some(v),
                _ => None,
            }
        } else {
            None
        }
    }

    /// Mutable access to the resource behind `h`, or `None` when `h` is stale
    /// or its resource was removed. Only that resource can change.
    pub fn lookup_mut(&mut self, h: Handle) -> (r: Option<&mut T>)
        requires
            old(self).wf(),
        ensures
            match r {
                Some(v) => {
                    &&& old(self).lookup_spec(h) == Some(*v)
                    &&& final(self).slots() == old(self).slots().update(
                        h.index as int,
                        Slot { state: SlotState::Occupied(*final(v)), generation: h.generation },
                    )
                },
                None => {
                    &&& old(self).lookup_spec(h) is None
                    &&& final(self).slots() == old(self).slots()
                },
            },
            final(self).wf(),
            final(self).pending() == old(self).pending(),
            final(self).frames() == old(self).frames(),
            handles_stay_dead(old(self).slots(), final(self).slots()),
    {
        if h.index < self.slots.len() && self.slots[h.index].generation == h.generation {
            match &mut self.slots[h.index].state {
                SlotState::Occupied(v) => Some(v),
                _ => None,
            }
        } else {
            None
        }
    }

    /// Whether `h` names a live resource.
    pub fn contains(&self, h: Handle) -> (r: bool)
        ensures
            r == self.lookup_spec(h) is Some,
    {
        self.lookup(h).is_some()
    }

    /// Removes the resource behind `h` during frame `frame`: lookups through
    /// `h` find nothing from now on, and the resource waits in the destroy
    /// queue until the GPU can no longer read it. A stale `h` changes nothing.
    /// Returns whether a resource was removed.
    pub fn remove(&mut self, h: Handle, frame: usize) -> (r: bool)
        requires
            old(self).wf(),
            frame < old(self).frames(),
        ensures
            final(self).wf(),
            final(self).frames() == old(self).frames(),
            r == old(self).lookup_spec(h) is Some,
            final(self).lookup_spec(h) is None,
            r ==> final(self).slots() == old(self).slots().update(
                h.index as int,
                Slot { state: SlotState::Retiring, generation: h.generation },
            ),
            r ==> final(self).pending() == old(self).pending().push(
                DestroyEntry {
                    value: old(self).lookup_spec(h)->Some_0,
                    frame,
                    passes_left: old(self).frames(),
                    slot: Some(h.index),
                },
            ),
            !r ==> final(self).slots() == old(self).slots(),
            !r ==> final(self).pending() == old(self).pending(),
            handles_stay_dead(old(self).slots(), final(self).slots()),
    {
        if h.index < self.slots.len() && self.slots[h.index].generation == h.generation {
            if let SlotState::Occupied(_) = self.slots[h.index].state {
                let mut taken = Slot { state: SlotState::Retiring, generation: h.generation };
                std::mem::swap(&mut self.slots[h.index], &mut taken);
                if let SlotState::Occupied(value) = taken.state {
                    self.queue.push(value, frame, Some(h.index));
                }
                return true;
            }
        }
        false
    }

    /// Swaps in `value` for the resource behind `h` during frame `frame`, for
    /// hot reload: `h` and every copy of it see `value` from now on, and the
    /// old resource waits in the destroy queue like a removed one. A stale `h`
    /// changes nothing and hands `value` back.
    pub fn replace(&mut self, h: Handle, value: T, frame: usize) -> (r: Result<(), T>)
        requires
            old(self).wf(),
            frame < old(self).frames(),
        ensures
            final(self).wf(),
            final(self).frames() == old(self).frames(),
            r is Ok == old(self).lookup_spec(h) is Some,
            r is Ok ==> final(self).slots() == old(self).slots().update(
                h.index as int,
                Slot { state: SlotState::Occupied(value), generation: h.generation },
            ),
            r is Ok ==> final(self).pending() == old(self).pending().push(
                DestroyEntry {
                    value: old(self).lookup_spec(h)->Some_0,
                    frame,
                    passes_left: old(self).frames(),
                    slot: None,
                },
            ),
            r is Ok ==> final(self).lookup_spec(h) == Some(value),
            r is Err ==> r == Err::<(), T>(value),
            r is Err ==> final(self).slots() == old(self).slots(),
            r is Err ==> final(self).pending() == old(self).pending(),
            handles_stay_dead(old(self).slots(), final(self).slots()),
    {
        if h.index < self.slots.len() && self.slots[h.index].generation == h.generation {
            if let SlotState::Occupied(_) = self.slots[h.index].state {
                let mut taken = Slot { state: SlotState::Occupied(value), generation: h.generation };
                std::mem::swap(&mut self.slots[h.index], &mut taken);
                if let SlotState::Occupied(previous) = taken.state {
                    self.queue.push(previous, frame, None);
                }
                return Ok(());
            }
        }
        Err(value)
    }

    /// The cleanup pass for frame `current`, run once per frame after the
    /// fence of `current` has signaled. Takes out of the destroy queue every
    /// resource that no in-flight frame can read any more, returns them for
    /// the caller to free, and moves each slot they held to its next
    /// generation, which invalidates every handle to it.
    pub fn clean_unused(&mut self, current: usize) -> (r: Vec<T>)
        requires
            old(self).wf(),
            current < old(self).frames(),
        ensures
            final(self).wf(),
            final(self).frames() == old(self).frames(),
            r@ == released(old(self).pending(), current).map_values(|e: DestroyEntry<T>| e.value),
            final(self).pending() == retained(old(self).pending(), current),
            final(self).slots().len() == old(self).slots().len(),
            forall|i: int|
                0 <= i < old(self).slots().len() ==> #[trigger] final(self).slots()[i]
                    == slot_after_cleanup(
                    old(self).slots()[i],
                    frees_slot(released(old(self).pending(), current), i),
                ),
            handles_stay_dead(old(self).slots(), final(self).slots()),
    {
        let mut rest = self.queue.release(current);
        let ghost r = rest@;
        let ghost s0 = self.slots@;
        let total: usize = rest.len();
        let mut values: Vec<T> = Vec::new();
        let mut k: usize = 0;
        while rest.len() > 0
            invariant
                r.len() == total,
                r.len() == k + rest@.len(),
                rest@ == r.skip(k as int),
                values@ == r.take(k as int).map_values(|e: DestroyEntry<T>| e.value),
                self.slots@.len() == s0.len(),
                forall|i: int|
                    0 <= i < s0.len() ==> #[trigger] self.slots@[i] == slot_after_cleanup(
                        s0[i],
                        frees_slot(r.take(k as int), i),
                    ),
                self.queue.wf(),
                self.queue.frames() == old(self).queue.frames(),
                self.queue.entries() == retained(old(self).queue.entries(), current),
            decreases rest.len(),
        {
            let e = rest.remove(0);
            proof {
                assert(r.skip(k + 1) =~= r.skip(k as int).remove(0));
                assert(r[k as int] == e);
                assert(r.take(k + 1) =~= r.take(k as int).push(e));
                assert forall|i: int| 0 <= i < s0.len() && e.slot != Some(i as usize) implies
                    frees_slot(r.take(k + 1), i) == frees_slot(r.take(k as int), i) by {
                    if frees_slot(r.take(k + 1), i) {
                        let w = choose|w: int| 0 <= w < r.take(k + 1).len() && #[trigger] r.take(k + 1)[w].slot == Some(i as usize);
                        assert(r.take(k as int)[w] == r.take(k + 1)[w]);
                    }
                    if frees_slot(r.take(k as int), i) {
                        let w = choose|w: int| 0 <= w < r.take(k as int).len() && #[trigger] r.take(k as int)[w].slot == Some(i as usize);
                        assert(r.take(k + 1)[w] == r.take(k as int)[w]);
                    }
                }
                if let Some(i) = e.slot {
                    assert(r.take(k + 1)[k as int].slot == Some(i));
                    assert(frees_slot(r.take(k + 1), i as int));
                }
            }
            if let Some(i) = e.slot {
                if i < self.slots.len() {
                    let generation = self.slots[i].generation;
                    if let SlotState::Retiring = self.slots[i].state {
                        if generation < u64::MAX {
                            self.slots.set(i, Slot { state: SlotState::Free, generation: generation + 1 });
                        }
                    }
                }
            }
            values.push(e.value);
            k = k + 1;
        }
        proof {
            assert(r.take(r.len() as int) =~= r);
        }
        values
    }

    /// The lowest free slot, if any.
    fn first_free(&self) -> (r: Option<usize>)
        ensures
            match r {
                Some(i) => i < self.slots().len() && self.slots()[i as int].state is Free,
                None => true,
            },
            forall|j: int|
                0 <= j < (match r {
                    Some(i) => i as int,
                    None => self.slots().len() as int,
                }) ==> !(#[trigger] self.slots()[j].state is Free),
    {
        let n = self.slots.len();
        let mut i: usize = 0;
        while i < n
            invariant
                i <= n,
                n == self.slots@.len(),
                forall|j: int| 0 <= j < i ==> !(#[trigger] self.slots@[j].state is Free),
            decreases n - i,
        {
            if let SlotState::Free = self.slots[i].state {
                return Some(i);
            }
            i = i + 1;
        }
        None
    }
}

} // verus!
