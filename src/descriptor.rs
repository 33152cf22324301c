//! The bindless image table shared by every draw.
use vstd::prelude::*;

verus! {

#[derive(Clone, Copy, Debug, PartialEq, Eq, Structural)]
pub enum DescriptorError {
    /// The table already holds as many images as it was created for.
    CapacityExceeded,
}

/// `b` is `a` with zero or more entries appended.
pub open spec fn extends<V>(a: Seq<V>, b: Seq<V>) -> bool {
    a.len() <= b.len() && b.take(a.len() as int) == a
}

/// An append-only table of image views. Each view gets the next index, from
/// zero up, and keeps it for the table's lifetime: shaders built earlier may
/// still encode it, so an index is never reused, even once its resource is gone.
pub struct DescriptorTable<V> {
    views: Vec<V>,
    capacity: usize,
    dirty: bool,
}

impl<V> DescriptorTable<V> {
    /// The views, by index.
    pub closed spec fn views(&self) -> Seq<V> {
        self.views@
    }

    pub closed spec fn capacity_spec(&self) -> usize {
        self.capacity
    }

    /// Whether the GPU-visible table lags behind `views`.
    pub closed spec fn is_dirty(&self) -> bool {
        self.dirty
    }

    pub open spec fn wf(&self) -> bool {
        self.views().len() <= self.capacity_spec()
    }

    /// An empty table that can hold `capacity` views.
    pub fn new(capacity: usize) -> (r: Self)
        ensures
            r.wf(),
            r.views() == Seq::<V>::empty(),
            r.capacity_spec() == capacity,
            !r.is_dirty(),
    {
        DescriptorTable { views: Vec::new(), capacity, dirty: false }
    }

    /// Appends `view` and returns its index, which is the number of views
    /// before it; fails once the table is full.
    pub fn add(&mut self, view: V) -> (r: Result<usize, DescriptorError>)
        requires
            old(self).wf(),
        ensures
            final(self).wf(),
            final(self).capacity_spec() == old(self).capacity_spec(),
            extends(old(self).views(), final(self).views()),
            old(self).views().len() < old(self).capacity_spec() ==> {
                &&& r == Ok::<usize, DescriptorError>(old(self).views().len() as usize)
                &&& final(self).views() == old(self).views().push(view)
                &&& final(self).is_dirty()
            },
            old(self).views().len() >= old(self).capacity_spec() ==> {
                &&& r == Err::<usize, DescriptorError>(DescriptorError::CapacityExceeded)
                &&& final(self).views() == old(self).views()
                &&& final(self).is_dirty() == old(self).is_dirty()
            },
    {
        if self.views.len() < self.capacity {
            let index = self.views.len();
            self.views.push(view);
            self.dirty = true;
            proof {
                assert(self.views@.take(old(self).views@.len() as int) =~= old(self).views@);
            }
            Ok(index)
        } else {
            proof {
                assert(self.views@.take(self.views@.len() as int) =~= self.views@);
            }
            Err(DescriptorError::CapacityExceeded)
        }
    }

    /// Asks for the GPU-visible table to be rewritten at the next update.
    pub fn mark_dirty(&mut self)
        ensures
            final(self).views() == old(self).views(),
            final(self).capacity_spec() == old(self).capacity_spec(),
            final(self).is_dirty(),
    {
        self.dirty = true;
    }

    /// Called once per frame: says whether the GPU-visible table must be
    /// rewritten from `views`, and counts it as rewritten, so that any number
    /// of additions within a frame cost one rewrite.
    pub fn update_if_needed(&mut self) -> (r: bool)
        ensures
            r == old(self).is_dirty(),
            !final(self).is_dirty(),
            final(self).views() == old(self).views(),
            final(self).capacity_spec() == old(self).capacity_spec(),
    {
        let was_dirty = self.dirty;
        self.dirty = false;
        was_dirty
    }

    /// The number of views, which is also the index the next one gets.
    pub fn image_count(&self) -> (r: usize)
        ensures
            r == self.views().len(),
    {
        self.views.len()
    }

    pub fn capacity(&self) -> (r: usize)
        ensures
            r == self.capacity_spec(),
    {
        self.capacity
    }

    pub fn is_full(&self) -> (r: bool)
        ensures
            r == (self.views().len() >= self.capacity_spec()),
    {
        self.views.len() >= self.capacity
    }

    /// The view at `index`.
    pub fn view(&self, index: usize) -> (r: Option<&V>)
        ensures
            index < self.views().len() ==> r == Some(&self.views()[index as int]),
            index >= self.views().len() ==> r is None,
    {
        if index < self.views.len() {
            Some(&self.views[index])
        } else {
            None
        }
    }
}

/// Indices come out strictly increasing: an index handed out when the table
/// held `a` (so `a` ends with that view) is below any index handed out later,
/// when the table holds `b`.
pub proof fn lemma_indices_increase<V>(a: Seq<V>, first: int, b: Seq<V>, second: int)
    requires
        first + 1 == a.len(),
        extends(a, b),
        second == b.len(),
    ensures
        first < second,
{
}

/// An index keeps its view for good: a table never reassigns it.
pub proof fn lemma_index_never_reassigned<V>(a: Seq<V>, b: Seq<V>, index: int)
    requires
        extends(a, b),
        0 <= index < a.len(),
    ensures
        b[index] == a[index],
{
    assert(b.take(a.len() as int)[index] == b[index]);
}

} // verus!
