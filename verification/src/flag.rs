//! The restart flag: the one value shared between signal-handling context and
//! the supervisor's control flow.
//!
//! A delivered restart trigger sets the flag; the supervisor polls it with
//! `consume`, which atomically reads and clears it. Repeated triggers before a
//! consume coalesce into the same `true` value: there is no queue and no
//! count. This module is the verified model of that flag; the program embeds
//! it behind an atomic boolean that signal context may set.

use vstd::prelude::*;

verus! {

/// What `consume` returns for a flag currently holding `set`.
pub open spec fn consume_returns(set: bool) -> bool {
    set
}

/// What the flag holds after a `consume`.
pub open spec fn consume_leaves(set: bool) -> bool {
    false
}

/// A restart trigger has been requested and not yet consumed.
///
/// Default `false`; a trigger sets it; `consume` reads and clears it.
pub struct RestartFlag {
    triggered: bool,
}

impl RestartFlag {
    /// Whether a trigger is pending.
    pub closed spec fn view(&self) -> bool {
        self.triggered
    }

    /// A fresh flag with no trigger pending.
    pub fn new() -> (r: RestartFlag)
        ensures
            !r@,
    {
        RestartFlag { triggered: false }
    }

    /// Record a delivered restart trigger. Triggers coalesce: the flag is
    /// simply `true` afterwards, however many had already arrived.
    pub fn trigger(&mut self)
        ensures
            final(self)@,
    {
        self.triggered = true;
    }

    /// Atomically read and clear the flag: returns whether a trigger had
    /// arrived since the last consume, and leaves no trigger pending.
    pub fn consume(&mut self) -> (r: bool)
        ensures
            r == consume_returns(old(self)@),
            final(self)@ == consume_leaves(old(self)@),
    {
        let r = self.triggered;
        self.triggered = false;
        r
    }
}

/// Consuming the flag twice without an intervening trigger reports no trigger
/// the second time, whatever the flag held at first.
pub proof fn lemma_consume_idempotent(set: bool)
    ensures
        consume_returns(consume_leaves(set)) == false,
{
}

} // verus!
