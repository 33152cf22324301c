//! Recovery from a stale surface when acquiring or presenting images.
use vstd::prelude::*;

verus! {

/// What acquiring the next surface image gave.
#[derive(Clone, Copy, Debug, PartialEq, Eq, Structural)]
pub enum AcquireOutcome {
    /// The index of the image to render into.
    Image(u32),
    /// The surface changed (a resize, say): the swapchain is out of date.
    Stale,
}

/// What presenting the rendered image gave.
#[derive(Clone, Copy, Debug, PartialEq, Eq, Structural)]
pub enum PresentOutcome {
    Presented,
    /// The swapchain is out of date or no longer matches the surface.
    Stale,
}

/// What the render loop does next.
#[derive(Clone, Copy, Debug, PartialEq, Eq, Structural)]
pub enum SurfaceAction {
    /// Render into this image.
    Render(u32),
    /// The image went to the screen.
    Done,
    /// Recreate the swapchain and what depends on it, then try once more.
    Recreate,
    /// A stale surface right after a recreation: give up.
    Fatal,
}

/// Counts stale results in a row: the first one asks for a recreation, the
/// second in a row is fatal, and any success starts the count again.
pub struct SurfaceRecovery {
    retried: bool,
}

impl SurfaceRecovery {
    /// Whether the last result was stale and a recreation was asked for.
    pub closed spec fn retried_spec(&self) -> bool {
        self.retried
    }

    pub fn new() -> (r: Self)
        ensures
            !r.retried_spec(),
    {
        SurfaceRecovery { retried: false }
    }

    pub fn retried(&self) -> (r: bool)
        ensures
            r == self.retried_spec(),
    {
        self.retried
    }

    /// Decides what follows an acquire.
    pub fn on_acquire(&mut self, outcome: AcquireOutcome) -> (r: SurfaceAction)
        ensures
            match outcome {
                AcquireOutcome::Image(i) => r == SurfaceAction::Render(i) && !final(self).retried_spec(),
                AcquireOutcome::Stale => if old(self).retried_spec() {
                    r == SurfaceAction::Fatal && final(self).retried_spec()
                } else {
                    r == SurfaceAction::Recreate && final(self).retried_spec()
                },
            },
    {
        match outcome {
            AcquireOutcome::Image(i) => {
                self.retried = false;
                SurfaceAction::Render(i)
            },
            AcquireOutcome::Stale => self.on_stale(),
        }
    }

    /// Decides what follows a present.
    pub fn on_present(&mut self, outcome: PresentOutcome) -> (r: SurfaceAction)
        ensures
            match outcome {
                PresentOutcome::Presented => r == SurfaceAction::Done && !final(self).retried_spec(),
                PresentOutcome::Stale => if old(self).retried_spec() {
                    r == SurfaceAction::Fatal && final(self).retried_spec()
                } else {
                    r == SurfaceAction::Recreate && final(self).retried_spec()
                },
            },
    {
        match outcome {
            PresentOutcome::Presented => {
                self.retried = false;
                SurfaceAction::Done
            },
            PresentOutcome::Stale => self.on_stale(),
        }
    }

    fn on_stale(&mut self) -> (r: SurfaceAction)
        ensures
            final(self).retried_spec(),
            r == if old(self).retried_spec() {
                SurfaceAction::Fatal
            } else {
                SurfaceAction::Recreate
            },
    {
        if self.retried {
            SurfaceAction::Fatal
        } else {
            self.retried = true;
            SurfaceAction::Recreate
        }
    }
}

} // verus!
