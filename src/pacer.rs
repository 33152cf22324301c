//! Pacing of the render loop against a ring of frames in flight.
use vstd::prelude::*;

verus! {

/// Where the render loop stands.
#[derive(Clone, Copy, Debug, PartialEq, Eq, Structural)]
pub enum FrameStage {
    /// Between frames: a frame may begin.
    Idle,
    /// A frame is being recorded: draws may be issued, and the frame ends next.
    Recording,
}

/// How many of `s` are set.
pub open spec fn count_set(s: Seq<bool>) -> nat
    decreases s.len(),
{
    if s.len() == 0 {
        0
    } else {
        count_set(s.drop_last()) + if s.last() {
            1nat
        } else {
            0nat
        }
    }
}

proof fn lemma_count_set_bound(s: Seq<bool>)
    ensures
        count_set(s) <= s.len(),
    decreases s.len(),
{
    if s.len() > 0 {
        lemma_count_set_bound(s.drop_last());
    }
}

proof fn lemma_count_set_update(s: Seq<bool>, i: int, b: bool)
    requires
        0 <= i < s.len(),
    ensures
        count_set(s.update(i, b)) + (if s[i] { 1int } else { 0int }) == count_set(s) + (if b {
            1int
        } else {
            0int
        }),
    decreases s.len(),
{
    let t = s.update(i, b);
    if i == s.len() - 1 {
        assert(t.drop_last() =~= s.drop_last());
    } else {
        assert(t.drop_last() =~= s.drop_last().update(i, b));
        lemma_count_set_update(s.drop_last(), i, b);
    }
}

proof fn lemma_count_set_none(n: int)
    requires
        n >= 0,
    ensures
        count_set(Seq::new(n as nat, |k: int| false)) == 0,
    decreases n,
{
    if n > 0 {
        assert(Seq::new(n as nat, |k: int| false).drop_last() =~= Seq::new(
            (n - 1) as nat,
            |k: int| false,
        ));
        lemma_count_set_none(n - 1);
    }
}

/// The ring of frame slots. Each slot has its own fence; a frame submitted on
/// a slot is in flight until the fence of that slot is waited on, which
/// happens before the slot is used again. So no more frames are in flight
/// than there are slots.
pub struct FramePacer {
    frames: usize,
    current: usize,
    stage: FrameStage,
    submitted: Vec<bool>,
    in_flight: usize,
}

impl FramePacer {
    pub closed spec fn frames(&self) -> usize {
        self.frames
    }

    /// The slot of the frame being recorded, or of the last one.
    pub closed spec fn current_spec(&self) -> usize {
        self.current
    }

    pub closed spec fn stage_spec(&self) -> FrameStage {
        self.stage
    }

    /// For each slot, whether work was submitted on it whose fence has not
    /// been waited on since.
    pub closed spec fn submitted(&self) -> Seq<bool> {
        self.submitted@
    }

    /// The number of frames submitted whose fence has not been waited on.
    pub closed spec fn in_flight_spec(&self) -> nat {
        self.in_flight as nat
    }

    pub open spec fn wf(&self) -> bool {
        &&& self.frames() >= 1
        &&& self.current_spec() < self.frames()
        &&& self.submitted().len() == self.frames()
        &&& self.in_flight_spec() == count_set(self.submitted())
    }

    /// A pacer for a ring of `frames` slots, with nothing in flight. It stands
    /// on slot 0, so the first frame is recorded on slot 1 (on slot 0 when
    /// there is a single slot).
    pub fn new(frames: usize) -> (r: Self)
        requires
            frames >= 1,
        ensures
            r.wf(),
            r.frames() == frames,
            r.current_spec() == 0,
            r.stage_spec() == FrameStage::Idle,
            r.submitted() == Seq::new(frames as nat, |k: int| false),
            r.in_flight_spec() == 0,
    {
        let mut submitted: Vec<bool> = Vec::new();
        let mut i: usize = 0;
        while i < frames
            invariant
                i <= frames,
                submitted@ == Seq::new(i as nat, |k: int| false),
            decreases frames - i,
        {
            submitted.push(false);
            i = i + 1;
            proof {
                assert(submitted@ =~= Seq::new(i as nat, |k: int| false));
            }
        }
        proof {
            lemma_count_set_none(frames as int);
        }
        FramePacer { frames, current: 0, stage: FrameStage::Idle, submitted, in_flight: 0 }
    }

    /// Begins a frame: moves to the next slot of the ring and returns it. The
    /// caller waits on that slot's fence and resets it before recording
    /// anything, which takes the frame last submitted there out of flight.
    pub fn begin_frame(&mut self) -> (r: usize)
        requires
            old(self).wf(),
            old(self).stage_spec() == FrameStage::Idle,
        ensures
            final(self).wf(),
            r == (old(self).current_spec() + 1) % (old(self).frames() as int),
            final(self).current_spec() == r,
            final(self).frames() == old(self).frames(),
            final(self).stage_spec() == FrameStage::Recording,
            final(self).submitted() == old(self).submitted().update(r as int, false),
    {
        let next = if self.current + 1 == self.frames {
            0
        } else {
            self.current + 1
        };
        proof {
            if self.current + 1 < self.frames {
                vstd::arithmetic::div_mod::lemma_small_mod(
                    (self.current + 1) as nat,
                    self.frames as nat,
                );
            } else {
                vstd::arithmetic::div_mod::lemma_mod_self_0(self.frames as int);
            }
            lemma_count_set_update(self.submitted@, next as int, false);
        }
        if self.submitted[next] {
            self.in_flight = self.in_flight - 1;
        }
        self.submitted.set(next, false);
        self.current = next;
        self.stage = FrameStage::Recording;
        next
    }

    /// Ends the frame being recorded: its work is submitted on the current
    /// slot, whose fence will signal when the GPU is done with it.
    pub fn end_frame(&mut self)
        requires
            old(self).wf(),
            old(self).stage_spec() == FrameStage::Recording,
        ensures
            final(self).wf(),
            final(self).current_spec() == old(self).current_spec(),
            final(self).frames() == old(self).frames(),
            final(self).stage_spec() == FrameStage::Idle,
            final(self).submitted() == old(self).submitted().update(
                old(self).current_spec() as int,
                true,
            ),
    {
        proof {
            lemma_count_set_update(self.submitted@, self.current as int, true);
            lemma_count_set_bound(self.submitted@.update(self.current as int, true));
        }
        if !self.submitted[self.current] {
            self.in_flight = self.in_flight + 1;
        }
        self.submitted.set(self.current, true);
        self.stage = FrameStage::Idle;
    }

    /// Records that the device has gone idle: every fence has signaled, so
    /// nothing is in flight.
    pub fn device_idle(&mut self)
        requires
            old(self).wf(),
        ensures
            final(self).wf(),
            final(self).current_spec() == old(self).current_spec(),
            final(self).frames() == old(self).frames(),
            final(self).stage_spec() == old(self).stage_spec(),
            final(self).submitted() == Seq::new(old(self).frames() as nat, |k: int| false),
            final(self).in_flight_spec() == 0,
    {
        let n = self.submitted.len();
        let mut i: usize = 0;
        while i < n
            invariant
                i <= n,
                n == self.frames,
                self.frames == old(self).frames,
                self.current == old(self).current,
                self.stage == old(self).stage,
                self.frames >= 1,
                self.current < self.frames,
                self.submitted@.len() == n,
                forall|k: int| 0 <= k < i ==> !#[trigger] self.submitted@[k],
            decreases n - i,
        {
            self.submitted.set(i, false);
            i = i + 1;
        }
        proof {
            assert(self.submitted@ =~= Seq::new(self.frames as nat, |k: int| false));
            lemma_count_set_none(self.frames as int);
        }
        self.in_flight = 0;
    }

    pub fn frames_in_flight(&self) -> (r: usize)
        ensures
            r == self.frames(),
    {
        self.frames
    }

    /// The slot of the frame being recorded, or of the last one.
    pub fn current(&self) -> (r: usize)
        ensures
            r == self.current_spec(),
    {
        self.current
    }

    pub fn stage(&self) -> (r: FrameStage)
        ensures
            r == self.stage_spec(),
    {
        self.stage
    }

    /// Whether draws may be issued now: only inside a begun frame.
    pub fn can_draw(&self) -> (r: bool)
        ensures
            r == (self.stage_spec() == FrameStage::Recording),
    {
        match self.stage {
            FrameStage::Recording => true,
            FrameStage::Idle => false,
        }
    }

    /// The number of submitted frames whose fence has not been waited on.
    pub fn in_flight(&self) -> (r: usize)
        ensures
            r == self.in_flight_spec(),
    {
        self.in_flight
    }
}

/// At every moment, no more frames are in flight than there are slots.
pub proof fn lemma_in_flight_bounded(p: &FramePacer)
    requires
        p.wf(),
    ensures
        p.in_flight_spec() <= p.frames(),
{
    lemma_count_set_bound(p.submitted());
}

} // verus!
