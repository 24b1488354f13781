//! The setup page's coarse choices: timing strategy and concurrency
//! policy, kept apart from the full render settings.

use vstd::prelude::*;

verus! {

/// The two timing strategies, as the setup page offers them.
#[derive(Clone, Copy, PartialEq, Eq, Structural, Debug)]
pub enum RenderMode {
    Standard,
    RealtimeSimulation,
}

impl Default for RenderMode {
    fn default() -> (r: Self)
        ensures
            r is Standard,
    {
        RenderMode::Standard
    }
}

impl RenderMode {
    /// The mode's position among the selectable modes.
    pub fn index(&self) -> (r: usize)
        ensures
            self is Standard ==> r == 0,
            self is RealtimeSimulation ==> r == 1,
    {
        match self {
            RenderMode::Standard => 0,
            RenderMode::RealtimeSimulation => 1,
        }
    }
}

/// The concurrency policy: whether many files render at once, whether one
/// file's channels fan out over a thread pool, both, or neither.
#[derive(Clone, Copy, PartialEq, Eq, Structural, Debug)]
pub enum Concurrency {
    Sequential,
    ParallelItems,
    ParallelTracks,
    Both,
}

impl Default for Concurrency {
    fn default() -> (r: Self)
        ensures
            r is Sequential,
    {
        Concurrency::Sequential
    }
}

impl Concurrency {
    /// The policy's position among the selectable policies.
    pub fn index(&self) -> (r: usize)
        ensures
            self is Sequential ==> r == 0,
            self is ParallelItems ==> r == 1,
            self is ParallelTracks ==> r == 2,
            self is Both ==> r == 3,
    {
        match self {
            Concurrency::Sequential => 0,
            Concurrency::ParallelItems => 1,
            Concurrency::ParallelTracks => 2,
            Concurrency::Both => 3,
        }
    }

    /// Whether the policy lets several files render at once: it feeds the
    /// job pool's concurrency cap.
    pub fn items_parallel(&self) -> (r: bool)
        ensures
            r == (self is ParallelItems || self is Both),
    {
        matches!(self, Concurrency::ParallelItems | Concurrency::Both)
    }

    /// Whether the policy fans one file's channels out over thread pools.
    pub fn tracks_parallel(&self) -> (r: bool)
        ensures
            r == (self is ParallelTracks || self is Both),
    {
        matches!(self, Concurrency::ParallelTracks | Concurrency::Both)
    }
}

/// The setup page's state.
pub struct ForteState {
    pub render_mode: RenderMode,
    pub concurrency: Concurrency,
}

impl Default for ForteState {
    fn default() -> (r: Self)
        ensures
            r.render_mode is Standard,
            r.concurrency is Sequential,
    {
        ForteState { render_mode: RenderMode::Standard, concurrency: Concurrency::Sequential }
    }
}

} // verus!
