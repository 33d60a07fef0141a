//! The holder of the current threshold.

use vstd::prelude::*;
use crate::level::LogLevel;

verus! {

/// Holds the minimum urgency a message needs in order to be emitted.
///
/// A registry always holds exactly one level. It starts at `Info` and can be
/// overwritten any number of times. A process that wants one shared threshold
/// keeps a single registry behind a lock and goes through the accessors here.
#[derive(Debug)]
pub struct Registry {
    threshold: LogLevel,
}

impl View for Registry {
    type V = LogLevel;

    /// A registry is modelled by the threshold it holds.
    closed spec fn view(&self) -> LogLevel {
        self.threshold
    }
}

impl Registry {
    /// The registry that results from writing `level` into this one.
    pub closed spec fn after_set(self, level: LogLevel) -> Registry {
        Registry { threshold: level }
    }

    /// The registry that results from writing each of `writes` in turn.
    pub open spec fn after_sets(self, writes: Seq<LogLevel>) -> Registry
        decreases writes.len(),
    {
        if writes.len() == 0 {
            self
        } else {
            self.after_sets(writes.drop_last()).after_set(writes.last())
        }
    }

    /// A registry holding the default threshold, `Info`.
    pub fn new() -> (r: Registry)
        ensures
            r@ == LogLevel::Info,
    {
        Registry { threshold: LogLevel::Info }
    }

    /// The threshold currently held.
    pub fn get_threshold(&self) -> (level: LogLevel)
        ensures
            level == self@,
    {
        self.threshold
    }

    /// Replaces the threshold with `new_level`, whatever it was before.
    pub fn set_threshold(&mut self, new_level: LogLevel)
        ensures
            *final(self) == old(self).after_set(new_level),
            final(self)@ == new_level,
    {
        self.threshold = new_level;
    }

    /// A write replaces the threshold and depends on nothing that was held
    /// before it.
    pub proof fn lemma_after_set(self, other: Registry, level: LogLevel)
        ensures
            self.after_set(level)@ == level,
            self.after_set(level) == other.after_set(level),
    {
    }

    /// Writing the same level twice leaves the registry, and so the filtering
    /// of every message, as one write left it.
    pub proof fn lemma_set_twice_same(self, level: LogLevel, probe: LogLevel)
        ensures
            self.after_set(level).after_set(level) == self.after_set(level),
            probe.passes(self.after_set(level).after_set(level)@) == probe.passes(
                self.after_set(level)@,
            ),
    {
    }

    /// After any non-empty run of writes the registry holds the last level
    /// written.
    pub proof fn lemma_last_write_wins(self, writes: Seq<LogLevel>)
        requires
            writes.len() > 0,
        ensures
            self.after_sets(writes)@ == writes.last(),
    {
    }
}

impl Default for Registry {
    fn default() -> (r: Registry)
        ensures
            r@ == LogLevel::Info,
    {
        Registry::new()
    }
}

/// Sets the threshold that later calls of [`crate::emit::log`] on this
/// registry filter by.
pub fn set_log_level(registry: &mut Registry, new_level: LogLevel)
    ensures
        *final(registry) == old(registry).after_set(new_level),
        final(registry)@ == new_level,
{
    registry.set_threshold(new_level);
}

} // verus!
