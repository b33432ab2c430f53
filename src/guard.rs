use vstd::prelude::*;
use std::sync::Arc;
use std::sync::atomic::{AtomicU64, Ordering};
use crate::channel::CommandSender;
use crate::command::Command;

verus! {

/// The generation that follows `g`: one more, wrapping at the top of `u64`.
pub open spec fn next_generation(g: u64) -> u64 {
    if g == u64::MAX {
        0
    } else {
        (g + 1) as u64
    }
}

/// What a background result tagged `captured` becomes when the current
/// generation is `current`: delivered if it is still current, dropped if not.
pub open spec fn settled(captured: u64, current: u64, result: Command) -> Option<Command> {
    if captured == current {
        Some(result)
    } else {
        None
    }
}

/// Decides whether a background result still applies.
pub fn settle(captured: u64, current: u64, result: Command) -> (r: Option<Command>)
    ensures
        r == settled(captured, current, result),
{
    if captured == current {
        Some(result)
    } else {
        None
    }
}

/// A result tagged with a superseded generation never reaches the channel:
/// once `advance` has produced a later generation, the earlier one settles to
/// nothing, whatever command it carries.
pub proof fn lemma_stale_result_dropped(g1: u64, g2: u64, result: Command)
    requires
        g1 < g2,
    ensures
        settled(g1, g2, result) is None,
{
}

/// A result whose generation is still current is delivered unchanged.
pub proof fn lemma_current_result_kept(g: u64, result: Command)
    ensures
        settled(g, g, result) == Some(result),
{
}

/// How an attempt to deliver a background result ended.
#[derive(Debug, PartialEq, Eq)]
pub enum Delivery {
    /// The generation was current and the command was enqueued.
    Sent,
    /// The generation was superseded; the command was dropped.
    Stale,
    /// The generation was current but the dispatcher is gone.
    Disconnected(Command),
}

/// The shared generation counter of single-flight background work.
///
/// Clones share one counter. Each read and each advance is one indivisible
/// operation on it.
#[derive(Clone)]
pub struct GenerationGuard {
    counter: Arc<AtomicU64>,
}

impl GenerationGuard {
    /// A guard at generation 0.
    pub fn new() -> (r: Self) {
        GenerationGuard { counter: Arc::new(AtomicU64::new(0)) }
    }

    /// The current generation. Other holders may advance it at any moment.
    pub fn current_generation(&self) -> (r: u64) {
        self.counter.load(Ordering::SeqCst)
    }

    /// Moves to a new generation, which invalidates every earlier one, and
    /// returns it.
    pub fn advance(&self) -> (r: u64) {
        let prev = self.counter.fetch_add(1, Ordering::SeqCst);
        next_gen(prev)
    }

    /// Enqueues `result` on `to` if `captured` is still the current
    /// generation, and drops it otherwise. Returns the generation that was
    /// read, with the outcome.
    pub fn deliver(&self, captured: u64, result: Command, to: &CommandSender) -> (r: (
        u64,
        Delivery,
    ))
        ensures
            r.1 is Stale <==> r.0 != captured,
            r.1 matches Delivery::Disconnected(back) ==> back == result,
    {
        let current = self.current_generation();
        match settle(captured, current, result) {
            Some(c) => match to.send(c) {
                Ok(()) => (current, Delivery::Sent),
                Err(back) => (current, Delivery::Disconnected(back)),
            },
            None => (current, Delivery::Stale),
        }
    }
}

/// The successor of a generation, wrapping at the top of `u64`.
pub fn next_gen(g: u64) -> (r: u64)
    ensures
        r == next_generation(g),
{
    if g == u64::MAX {
        0
    } else {
        g + 1
    }
}

} // verus!
