use vstd::prelude::*;

verus! {

/// What has happened to the process-wide runtime session so far: how many
/// managers hold it, and how often it was initialized and torn down.
pub ghost struct SessionTally {
    pub live: nat,
    pub inits: nat,
    pub teardowns: nat,
}

/// The tally before any manager was created.
pub open spec fn fresh_tally() -> SessionTally {
    SessionTally { live: 0, inits: 0, teardowns: 0 }
}

/// A successful acquire: the first holder initializes the runtime.
pub open spec fn acquired(t: SessionTally) -> SessionTally {
    SessionTally {
        live: t.live + 1,
        inits: if t.live == 0 { t.inits + 1 } else { t.inits },
        teardowns: t.teardowns,
    }
}

/// A release: the last holder tears the runtime down; a release with no
/// holder changes nothing.
pub open spec fn released(t: SessionTally) -> SessionTally {
    if t.live == 0 {
        t
    } else {
        SessionTally {
            live: (t.live - 1) as nat,
            inits: t.inits,
            teardowns: if t.live == 1 { t.teardowns + 1 } else { t.teardowns },
        }
    }
}

/// An acquire that initialized the runtime but then found it unusable:
/// the runtime is torn down again and nobody holds it.
pub open spec fn aborted_fresh(t: SessionTally) -> SessionTally {
    SessionTally { live: t.live, inits: t.inits + 1, teardowns: t.teardowns + 1 }
}

/// The runtime is initialized exactly while somebody holds it.
pub open spec fn balanced(t: SessionTally) -> bool {
    t.inits == t.teardowns + if t.live > 0 {
        1nat
    } else {
        0nat
    }
}

/// The tally after a sequence of successful acquires (`true`) and
/// releases (`false`), starting from no session.
pub open spec fn replay(ops: Seq<bool>) -> SessionTally
    decreases ops.len(),
{
    if ops.len() == 0 {
        fresh_tally()
    } else {
        let prev = replay(ops.drop_last());
        if ops.last() {
            acquired(prev)
        } else {
            released(prev)
        }
    }
}

/// How an acquire attempt ends once the mandatory overlay interface was
/// looked up.
#[derive(Clone, Copy, Debug, PartialEq, Eq, Structural)]
pub enum AcquireOutcome {
    /// The session is usable and now counts one more holder.
    Acquired,
    /// This attempt initialized the runtime and it is unusable: shut it down
    /// again, then fail.
    ShutdownAndFail,
    /// The runtime was already held by others and is unusable: fail.
    Failed,
}

/// What a release asks of the host.
#[derive(Clone, Copy, Debug, PartialEq, Eq, Structural)]
pub enum ReleaseOutcome {
    /// This was the last holder: shut the runtime down.
    Shutdown,
    /// Other holders remain: leave the runtime running.
    Released,
    /// Nobody held the session: a contract violation, and nothing changes.
    Underflow,
}

/// The reference count of the process-wide runtime session. The host keeps
/// one of these behind the lock that spans each acquire and each release.
pub struct SessionRegistry {
    count: usize,
    inits: Ghost<nat>,
    teardowns: Ghost<nat>,
}

impl SessionRegistry {
    /// The registry's history, as a tally.
    pub closed spec fn tally(&self) -> SessionTally {
        SessionTally { live: self.count as nat, inits: self.inits@, teardowns: self.teardowns@ }
    }

    /// A registry that no manager holds.
    pub fn new() -> (r: SessionRegistry)
        ensures
            r.tally() == fresh_tally(),
            balanced(r.tally()),
    {
        SessionRegistry { count: 0, inits: Ghost(0), teardowns: Ghost(0) }
    }

    /// How many managers hold the session.
    pub fn count(&self) -> (r: usize)
        ensures
            r == self.tally().live,
    {
        self.count
    }

    /// Whether an acquire must initialize the runtime first: only when
    /// nobody holds it. An initialization that fails changes nothing here.
    pub fn needs_init(&self) -> (r: bool)
        ensures
            r == (self.tally().live == 0),
    {
        self.count == 0
    }

    /// Ends an acquire attempt, after the runtime was initialized where
    /// `needs_init` asked for it. The count grows only for a usable session.
    pub fn finish_acquire(&mut self, overlay_found: bool) -> (r: AcquireOutcome)
        requires
            old(self).tally().live < usize::MAX,
        ensures
            overlay_found ==> r == AcquireOutcome::Acquired && final(self).tally() == acquired(
                old(self).tally(),
            ),
            !overlay_found && old(self).tally().live == 0 ==> r == AcquireOutcome::ShutdownAndFail
                && final(self).tally() == aborted_fresh(old(self).tally()),
            !overlay_found && old(self).tally().live > 0 ==> r == AcquireOutcome::Failed
                && final(self).tally() == old(self).tally(),
            balanced(old(self).tally()) ==> balanced(final(self).tally()),
    {
        if overlay_found {
            if self.count == 0 {
                self.inits = Ghost(self.inits@ + 1);
            }
            self.count = self.count + 1;
            AcquireOutcome::Acquired
        } else if self.count == 0 {
            self.inits = Ghost(self.inits@ + 1);
            self.teardowns = Ghost(self.teardowns@ + 1);
            AcquireOutcome::ShutdownAndFail
        } else {
            AcquireOutcome::Failed
        }
    }

    /// Drops one holder; the last one shuts the runtime down. The count
    /// never goes below zero.
    pub fn release(&mut self) -> (r: ReleaseOutcome)
        ensures
            final(self).tally() == released(old(self).tally()),
            old(self).tally().live == 0 ==> r == ReleaseOutcome::Underflow,
            old(self).tally().live == 1 ==> r == ReleaseOutcome::Shutdown,
            old(self).tally().live > 1 ==> r == ReleaseOutcome::Released,
            balanced(old(self).tally()) ==> balanced(final(self).tally()),
    {
        if self.count == 0 {
            ReleaseOutcome::Underflow
        } else if self.count == 1 {
            self.count = 0;
            self.teardowns = Ghost(self.teardowns@ + 1);
            ReleaseOutcome::Shutdown
        } else {
            self.count = self.count - 1;
            ReleaseOutcome::Released
        }
    }
}

/// Whatever the number of holders, an acquire initializes the runtime
/// exactly when it is the first, and a release tears it down exactly when
/// it is the last; neither ever does the other's work.
pub proof fn lemma_first_acquire_last_release(t: SessionTally)
    ensures
        acquired(t).live == t.live + 1,
        acquired(t).inits == t.inits + if t.live == 0 {
            1nat
        } else {
            0nat
        },
        acquired(t).teardowns == t.teardowns,
        t.live > 0 ==> released(t).live == t.live - 1,
        released(t).teardowns == t.teardowns + if t.live == 1 {
            1nat
        } else {
            0nat
        },
        released(t).inits == t.inits,
        balanced(t) ==> balanced(acquired(t)) && balanced(released(t)) && balanced(
            aborted_fresh(t),
        ),
{
}

/// Whatever the order of acquires and releases, the runtime has been
/// initialized once more than torn down while somebody holds it, and as
/// often as torn down once nobody does.
pub proof fn lemma_session_balanced(ops: Seq<bool>)
    ensures
        balanced(replay(ops)),
    decreases ops.len(),
{
    if ops.len() > 0 {
        lemma_session_balanced(ops.drop_last());
    }
}

/// Within one period of use (the first operation is an acquire, and the
/// session stays held until the end), the runtime is initialized exactly
/// once, and torn down exactly once if and only if the last holder has
/// released it.
pub proof fn lemma_session_single_init(ops: Seq<bool>)
    requires
        ops.len() > 0,
        ops[0],
        forall|k: int| 0 < k < ops.len() ==> #[trigger] replay(ops.take(k)).live > 0,
    ensures
        replay(ops).inits == 1,
        replay(ops).teardowns == if replay(ops).live == 0 {
            1nat
        } else {
            0nat
        },
    decreases ops.len(),
{
    if ops.len() == 1 {
        assert(ops.drop_last() =~= Seq::<bool>::empty());
        assert(replay(ops.drop_last()) == fresh_tally());
        assert(ops.last() == ops[0]);
    } else {
        let prev = ops.drop_last();
        assert(prev[0] == ops[0]);
        assert forall|k: int| 0 < k < prev.len() implies #[trigger] replay(prev.take(k)).live
            > 0 by {
            assert(prev.take(k) =~= ops.take(k));
            assert(replay(ops.take(k)).live > 0);
        }
        lemma_session_single_init(prev);
        assert(ops.take(ops.len() - 1) =~= prev);
        assert(replay(ops.take(ops.len() - 1)).live > 0);
    }
}

} // verus!
