//! Single-sampler enforcement: the advisory lock on the marker file,
//! modelled so the exclusivity argument can be made and tested without a
//! filesystem.

use vstd::prelude::*;

verus! {

/// The advisory exclusive lock on the marker file. Holding it is a
/// sampler's proof of identity; it falls back to released whenever the
/// holding process exits.
#[derive(Debug, Clone, Copy, PartialEq, Eq, Structural)]
pub struct MarkerLock {
    /// Whether some sampler currently holds the lock.
    pub held: bool,
}

impl MarkerLock {
    /// The state before any sampler ever ran.
    pub fn released() -> (l: MarkerLock)
        ensures
            !l.held,
    {
        MarkerLock { held: false }
    }

    /// Non-blocking exclusive acquisition: succeeds exactly when nobody
    /// holds the lock, and leaves it held either way.
    pub fn try_acquire(&mut self) -> (got: bool)
        ensures
            got == !old(self).held,
            final(self).held,
    {
        let got = !self.held;
        self.held = true;
        got
    }

    /// Release, as process exit does for the advisory lock.
    pub fn release(&mut self)
        ensures
            !final(self).held,
    {
        self.held = false;
    }

    /// A reader's probe: observe whether a sampler is running without
    /// keeping the lock. Returns true when the reader should spawn one.
    pub fn probe(&mut self) -> (spawn: bool)
        ensures
            spawn == !old(self).held,
            *final(self) == *old(self),
    {
        let got = self.try_acquire();
        if got {
            self.release();
        }
        got
    }
}

/// Sampler startup: claim the lock and run only when it was free. A
/// second sampler finds the lock held, acquires nothing, and exits.
pub fn sampler_startup(lock: &mut MarkerLock) -> (running: bool)
    ensures
        running == !old(lock).held,
        final(lock).held,
{
    lock.try_acquire()
}

/// Exclusivity under a stampede: however many sampler startups race on
/// one lock, at most one ends up running — exactly one when the lock was
/// free and any started at all.
pub fn stampede(lock: &mut MarkerLock, n: usize) -> (running: usize)
    ensures
        running <= 1,
        running == if old(lock).held || n == 0 {
            0usize
        } else {
            1usize
        },
        final(lock).held == (old(lock).held || n > 0),
{
    let mut i: usize = 0;
    let mut running: usize = 0;
    while i < n
        invariant
            i <= n,
            lock.held == (old(lock).held || i > 0),
            running == if old(lock).held || i == 0 {
                0int
            } else {
                1int
            },
        decreases n - i,
    {
        if sampler_startup(lock) {
            running = running + 1;
        }
        i = i + 1;
    }
    running
}

} // verus!
