//! The built-in state types that every freshly bootstrapped registry
//! carries: frame timing, the event queue, and the chunk store.
//!
//! The registry needs nothing of them beyond default construction; their
//! own behaviour is the surrounding engine's business.

use vstd::prelude::*;

verus! {

/// Frame-timing state: the duration of the current frame, in nanoseconds.
pub struct Time {
    frame_duration: u64,
}

impl View for Time {
    type V = u64;

    closed spec fn view(&self) -> u64 {
        self.frame_duration
    }
}

impl Time {
    /// Record `duration` (in nanoseconds) as the current frame duration.
    pub fn set_duration(&mut self, duration: u64)
        ensures
            final(self)@ == duration,
    {
        self.frame_duration = duration;
    }

    /// The recorded duration of the current frame, in nanoseconds.
    pub fn frame_time(&self) -> (r: u64)
        ensures
            r == self@,
    {
        self.frame_duration
    }
}

impl Default for Time {
    /// A timing state with a zero frame duration.
    fn default() -> (t: Self)
        ensures
            t@ == 0,
    {
        Time { frame_duration: 0 }
    }
}

/// Event-queue state, one of the mandatory bootstrap members.
pub struct Events {
    pending: Vec<u64>,
}

impl View for Events {
    type V = Seq<u64>;

    closed spec fn view(&self) -> Seq<u64> {
        self.pending@
    }
}

impl Default for Events {
    /// An event queue with nothing pending.
    fn default() -> (e: Self)
        ensures
            e@ == Seq::<u64>::empty(),
    {
        Events { pending: Vec::new() }
    }
}

/// Chunk-store state, one of the mandatory bootstrap members.
pub struct Chunks {
    loaded: Vec<u64>,
}

impl View for Chunks {
    type V = Seq<u64>;

    closed spec fn view(&self) -> Seq<u64> {
        self.loaded@
    }
}

impl Default for Chunks {
    /// A chunk store with nothing loaded.
    fn default() -> (c: Self)
        ensures
            c@ == Seq::<u64>::empty(),
    {
        Chunks { loaded: Vec::new() }
    }
}

} // verus!
