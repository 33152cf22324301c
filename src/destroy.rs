//! Resources that were removed but may still be read by in-flight GPU work.
use vstd::arithmetic::div_mod::lemma_mod_add_multiples_vanish;
use vstd::arithmetic::div_mod::lemma_small_mod;
use vstd::prelude::*;

verus! {

/// A removed resource waiting for the GPU to finish with it.
pub struct DestroyEntry<T> {
    /// The resource itself.
    pub value: T,
    /// The frame slot that was being recorded when the resource was removed.
    pub frame: usize,
    /// How many cleanup passes the entry must still see before it may be freed.
    pub passes_left: usize,
    /// The arena slot to recycle once the resource is freed, if any.
    pub slot: Option<usize>,
}

impl<T> DestroyEntry<T> {
    /// The entry is freed by the pass for frame `current`: it has seen every
    /// other pass it waits for, and `current` is the frame it was marked with,
    /// whose fence has just signaled again.
    pub open spec fn is_safe_at(&self, current: usize) -> bool {
        self.passes_left <= 1 && self.frame == current
    }

    /// The entry as it stays in the queue after a pass that did not free it.
    pub open spec fn after_pass(self) -> DestroyEntry<T> {
        DestroyEntry {
            passes_left: if self.passes_left == 0 { 0 } else { (self.passes_left - 1) as usize },
            ..self
        }
    }
}

/// The entries of `s` that the pass for frame `current` frees, in queue order.
pub open spec fn released<T>(s: Seq<DestroyEntry<T>>, current: usize) -> Seq<DestroyEntry<T>>
    decreases s.len(),
{
    if s.len() == 0 {
        Seq::empty()
    } else {
        let rest = released(s.drop_last(), current);
        if s.last().is_safe_at(current) {
            rest.push(s.last())
        } else {
            rest
        }
    }
}

/// The entries of `s` that stay queued after the pass for frame `current`.
pub open spec fn retained<T>(s: Seq<DestroyEntry<T>>, current: usize) -> Seq<DestroyEntry<T>>
    decreases s.len(),
{
    if s.len() == 0 {
        Seq::empty()
    } else {
        let rest = retained(s.drop_last(), current);
        if s.last().is_safe_at(current) {
            rest
        } else {
            rest.push(s.last().after_pass())
        }
    }
}

/// What becomes of one entry over a run of cleanup passes, given the frame of
/// each pass: `None` once a pass has freed it, else the entry as it then stands.
pub open spec fn fate<T>(e: DestroyEntry<T>, passes: Seq<usize>) -> Option<DestroyEntry<T>>
    decreases passes.len(),
{
    if passes.len() == 0 {
        Some(e)
    } else {
        match fate(e, passes.drop_last()) {
            None => None,
            Some(x) => if x.is_safe_at(passes.last()) {
                None
            } else {
                Some(x.after_pass())
            },
        }
    }
}

/// One cleanup pass acts on each queued entry by itself: the entry is freed
/// if it is safe at `current`, and otherwise stays, one pass further on.
pub proof fn lemma_pass_acts_on_each_entry<T>(s: Seq<DestroyEntry<T>>, current: usize, k: int)
    requires
        0 <= k < s.len(),
    ensures
        s[k].is_safe_at(current) ==> released(s, current).contains(s[k]),
        !s[k].is_safe_at(current) ==> retained(s, current).contains(s[k].after_pass()),
        fate(s[k], seq![current]) == if s[k].is_safe_at(current) {
            None
        } else {
            Some(s[k].after_pass())
        },
    decreases s.len(),
{
    let passes = seq![current];
    assert(passes.drop_last() =~= Seq::<usize>::empty());
    assert(fate(s[k], passes.drop_last()) == Some(s[k]));
    assert(passes.last() == current);
    if k < s.len() - 1 {
        lemma_pass_acts_on_each_entry(s.drop_last(), current, k);
        assert(s.drop_last()[k] == s[k]);
        if s[k].is_safe_at(current) {
            let r = released(s.drop_last(), current);
            let w = choose|w: int| 0 <= w < r.len() && r[w] == s[k];
            if s.last().is_safe_at(current) {
                assert(r.push(s.last())[w] == s[k]);
            }
        } else {
            let r = retained(s.drop_last(), current);
            let w = choose|w: int| 0 <= w < r.len() && r[w] == s[k].after_pass();
            if !s.last().is_safe_at(current) {
                assert(r.push(s.last().after_pass())[w] == s[k].after_pass());
            }
        }
    } else {
        if s[k].is_safe_at(current) {
            let r = released(s.drop_last(), current);
            assert(r.push(s.last())[r.len() as int] == s[k]);
        } else {
            let r = retained(s.drop_last(), current);
            assert(r.push(s.last().after_pass())[r.len() as int] == s[k].after_pass());
        }
    }
}

/// Over fewer passes than it waits for, an entry only counts them down.
proof fn lemma_fate_counts_down<T>(e: DestroyEntry<T>, passes: Seq<usize>)
    requires
        passes.len() < e.passes_left,
    ensures
        fate(e, passes) == Some(
            DestroyEntry { passes_left: (e.passes_left - passes.len()) as usize, ..e },
        ),
    decreases passes.len(),
{
    if passes.len() > 0 {
        lemma_fate_counts_down(e, passes.drop_last());
    }
}

/// A removed resource is never freed before it has seen as many cleanup
/// passes as there are frames in flight, whatever frames those passes run for.
pub proof fn lemma_no_release_before_full_cycle<T>(e: DestroyEntry<T>, passes: Seq<usize>)
    requires
        passes.len() < e.passes_left,
    ensures
        fate(e, passes) is Some,
{
    lemma_fate_counts_down(e, passes);
}

/// A resource queued in a ring of `n` frames is freed by the pass that comes
/// back to its own frame after one full turn of the ring: no resource leaks.
pub proof fn lemma_release_after_full_cycle<T>(e: DestroyEntry<T>, n: usize, passes: Seq<usize>)
    requires
        n >= 1,
        e.frame < n,
        e.passes_left == n,
        passes.len() == n,
        forall|k: int| 0 <= k < n ==> #[trigger] passes[k] == (e.frame + 1 + k) % (n as int),
    ensures
        fate(e, passes) is None,
{
    lemma_fate_counts_down(e, passes.drop_last());
    lemma_mod_add_multiples_vanish(e.frame as int, n as int);
    lemma_small_mod(e.frame as nat, n as nat);
    assert(passes.last() == (e.frame + n) % (n as int));
}

/// Queue of removed resources, each tagged with the frame it was removed in.
pub struct DeferredDestroyQueue<T> {
    entries: Vec<DestroyEntry<T>>,
    frames: usize,
}

impl<T> DeferredDestroyQueue<T> {
    /// The queued entries, oldest first.
    pub closed spec fn entries(&self) -> Seq<DestroyEntry<T>> {
        self.entries@
    }

    /// The number of frames that may be in flight at once.
    pub closed spec fn frames(&self) -> usize {
        self.frames
    }

    pub open spec fn wf(&self) -> bool {
        &&& self.frames() >= 1
        &&& forall|i: int| 0 <= i < self.entries().len() ==> #[trigger] self.entries()[i].frame < self.frames()
    }

    /// An empty queue for a ring of `frames` frames in flight.
    pub fn new(frames: usize) -> (r: Self)
        requires
            frames >= 1,
        ensures
            r.wf(),
            r.frames() == frames,
            r.entries() == Seq::<DestroyEntry<T>>::empty(),
    {
        DeferredDestroyQueue { entries: Vec::new(), frames }
    }

    pub fn frames_in_flight(&self) -> (r: usize)
        ensures
            r == self.frames(),
    {
        self.frames
    }

    pub fn len(&self) -> (r: usize)
        ensures
            r == self.entries().len(),
    {
        self.entries.len()
    }

    /// Queues `value`, removed while frame `frame` was being recorded. It must
    /// then see a full cycle of cleanup passes before it is freed.
    pub fn push(&mut self, value: T, frame: usize, slot: Option<usize>)
        requires
            old(self).wf(),
            frame < old(self).frames(),
        ensures
            final(self).wf(),
            final(self).frames() == old(self).frames(),
            final(self).entries() == old(self).entries().push(
                DestroyEntry { value, frame, passes_left: old(self).frames(), slot },
            ),
    {
        let passes_left = self.frames;
        self.entries.push(DestroyEntry { value, frame, passes_left, slot });
    }

    /// The cleanup pass for frame `current`, run once the fence of `current`
    /// has signaled: takes out and returns every entry that is now safe to
    /// free, and counts the pass against the others.
    pub fn release(&mut self, current: usize) -> (r: Vec<DestroyEntry<T>>)
        requires
            old(self).wf(),
            current < old(self).frames(),
        ensures
            final(self).wf(),
            final(self).frames() == old(self).frames(),
            r@ == released(old(self).entries(), current),
            final(self).entries() == retained(old(self).entries(), current),
    {
        let mut pending: Vec<DestroyEntry<T>> = Vec::new();
        std::mem::swap(&mut self.entries, &mut pending);
        let ghost s = pending@;
        let total: usize = pending.len();
        let mut freed: Vec<DestroyEntry<T>> = Vec::new();
        let mut i: usize = 0;
        while pending.len() > 0
            invariant
                s.len() == i + pending@.len(),
                s.len() == total,
                pending@ == s.skip(i as int),
                freed@ == released(s.take(i as int), current),
                self.entries@ == retained(s.take(i as int), current),
                self.frames == old(self).frames,
                self.frames >= 1,
                forall|k: int| 0 <= k < s.len() ==> #[trigger] s[k].frame < self.frames,
                forall|k: int|
                    0 <= k < self.entries@.len() ==> #[trigger] self.entries@[k].frame
                        < self.frames,
            decreases pending.len(),
        {
            let e = pending.remove(0);
            proof {
                assert(s.take(i + 1).drop_last() =~= s.take(i as int));
                assert(s.take(i + 1).last() == s[i as int]);
                assert(s.skip(i + 1) =~= s.skip(i as int).remove(0));
            }
            if e.passes_left <= 1 && e.frame == current {
                freed.push(e);
            } else {
                let passes_left = if e.passes_left == 0 {
                    0
                } else {
                    e.passes_left - 1
                };
                self.entries.push(
                    DestroyEntry { value: e.value, frame: e.frame, passes_left, slot: e.slot },
                );
            }
            i = i + 1;
        }
        proof {
            assert(s.take(s.len() as int) =~= s);
        }
        freed
    }
}

} // verus!
