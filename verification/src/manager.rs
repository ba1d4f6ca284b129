use vstd::prelude::*;
use crate::messages;

verus! {

/// Identifier of a spawned child process, as the host runtime reports it.
///
/// The manager tracks the child only through this identifier; the live
/// process object stays with the caller, which alone may request its
/// termination.
#[derive(Clone, Copy, PartialEq, Eq, Structural, Debug)]
pub struct ProcessHandle {
    id: u64,
}

impl ProcessHandle {
    pub closed spec fn spec_id(&self) -> u64 {
        self.id
    }

    pub fn new(id: u64) -> (h: ProcessHandle)
        ensures
            h.spec_id() == id,
    {
        ProcessHandle { id }
    }

    pub fn id(&self) -> (r: u64)
        ensures
            r == self.spec_id(),
    {
        self.id
    }
}

/// What the single process slot holds.
///
/// `Claimed` marks a start that has observed the slot empty and whose spawn
/// is still in flight. Observing and claiming are one atomic step under the
/// caller's lock, so of two racing starts only one can ever reach the spawn.
#[derive(Clone, Copy, PartialEq, Eq, Structural, Debug)]
pub enum Slot {
    Empty,
    Claimed,
    Occupied(ProcessHandle),
}

/// The sidecar lifecycle manager: it owns the one process slot, so at any
/// instant at most one child process handle is held.
///
/// Callers serialize every method through one lock and hold that lock only
/// across the method itself, never across a spawn, a kill or a wait.
pub struct SidecarManager {
    slot: Slot,
}

impl View for SidecarManager {
    type V = Slot;

    closed spec fn view(&self) -> Slot {
        self.slot
    }
}

/// One start attempt's atomic check of the slot: an empty slot is claimed,
/// anything else is left alone and reported as already running.
pub open spec fn claim_step(pre: Slot, post: Slot, claimed: bool) -> bool {
    &&& claimed == (pre is Empty)
    &&& post == if claimed {
        Slot::Claimed
    } else {
        pre
    }
}

/// How a claimed start settles the slot once its spawn attempt finished:
/// the new handle moves in on success, the slot reopens on failure.
pub open spec fn finish_step(pre: Slot, post: Slot, spawned: Option<ProcessHandle>) -> bool {
    &&& pre is Claimed
    &&& post == match spawned {
        Some(h) => Slot::Occupied(h),
        None => Slot::Empty,
    }
}

/// How stop empties the slot: it takes the handle out if one is there, and
/// otherwise changes nothing.
pub open spec fn take_step(pre: Slot, post: Slot, taken: Option<ProcessHandle>) -> bool {
    match pre {
        Slot::Occupied(h) => taken == Some(h) && post is Empty,
        _ => taken is None && post == pre,
    }
}

/// The handle a spawn outcome delivered, if any.
pub open spec fn spawned_handle(outcome: Result<ProcessHandle, String>) -> Option<ProcessHandle> {
    match outcome {
        Ok(h) => Some(h),
        Err(_) => None,
    }
}

impl SidecarManager {
    /// A fresh manager: the slot is empty, nothing was spawned yet.
    pub fn new() -> (m: SidecarManager)
        ensures
            m@ is Empty,
    {
        SidecarManager { slot: Slot::Empty }
    }

    pub open spec fn is_running(&self) -> bool {
        self@ is Occupied
    }

    pub open spec fn start_in_flight(&self) -> bool {
        self@ is Claimed
    }

    /// Whether the slot holds a handle right now.
    pub fn running(&self) -> (b: bool)
        ensures
            b == self.is_running(),
    {
        match self.slot {
            Slot::Occupied(_) => true,
            _ => false,
        }
    }

    /// Whether a start has claimed the slot and not yet settled it.
    pub fn start_pending(&self) -> (b: bool)
        ensures
            b == self.start_in_flight(),
    {
        match self.slot {
            Slot::Claimed => true,
            _ => false,
        }
    }

    /// First critical section of start: check the slot and, in the same
    /// step, claim it. Returns whether this caller won the right to spawn;
    /// a caller that did not reports the already-running success instead.
    pub fn try_claim_start(&mut self) -> (claimed: bool)
        ensures
            claim_step(old(self)@, final(self)@, claimed),
    {
        match self.slot {
            Slot::Empty => {
                self.slot = Slot::Claimed;
                true
            },
            _ => false,
        }
    }

    /// Second critical section of start, entered after the spawn attempt
    /// ran without the lock: store the new handle, or reopen the slot, and
    /// build the caller's answer. A failure's error text is passed through
    /// as it came, and the slot stays empty.
    pub fn finish_start(&mut self, outcome: Result<ProcessHandle, String>) -> (r: Result<
        String,
        String,
    >)
        requires
            old(self)@ is Claimed,
        ensures
            finish_step(old(self)@, final(self)@, spawned_handle(outcome)),
            outcome is Ok ==> (r matches Ok(s) && s@ == messages::started_message()),
            outcome matches Err(m) ==> (r matches Err(s) && s@ == m@),
    {
        match outcome {
            Ok(h) => {
                self.slot = Slot::Occupied(h);
                Ok(messages::started_text())
            },
            Err(m) => {
                self.slot = Slot::Empty;
                Err(m)
            },
        }
    }

    /// Stop's critical section: empty the slot and hand the handle out. The
    /// caller requests termination after releasing the lock; a failed kill
    /// is not undone here, so the slot stays empty either way.
    pub fn take_handle(&mut self) -> (taken: Option<ProcessHandle>)
        ensures
            take_step(old(self)@, final(self)@, taken),
    {
        match self.slot {
            Slot::Occupied(h) => {
                self.slot = Slot::Empty;
                Some(h)
            },
            _ => None,
        }
    }
}

/// Two start attempts race for an empty slot: the lock serializes their
/// check-and-claim steps, and whatever else happens around them, only the
/// first step claims. Exactly one of the two callers ever spawns.
pub proof fn lemma_start_race_single_claim(s0: Slot, s1: Slot, s2: Slot, a: bool, b: bool)
    requires
        s0 is Empty,
        claim_step(s0, s1, a),
        claim_step(s1, s2, b),
    ensures
        a,
        !b,
{
}

/// Starting twice in sequence spawns once: after a start that claimed the
/// empty slot and stored its handle, a second start does not claim, spawns
/// nothing, and leaves the one stored handle exactly as it was.
pub proof fn lemma_second_start_keeps_single_occupant(
    s0: Slot,
    s1: Slot,
    s2: Slot,
    s3: Slot,
    h: ProcessHandle,
    a: bool,
    b: bool,
)
    requires
        s0 is Empty,
        claim_step(s0, s1, a),
        finish_step(s1, s2, Some(h)),
        claim_step(s2, s3, b),
    ensures
        a,
        !b,
        s2 == Slot::Occupied(h),
        s3 == Slot::Occupied(h),
{
}

/// Stopping a manager that was never started takes nothing and changes
/// nothing; the caller answers with the not-running failure.
pub proof fn lemma_stop_never_started(s0: Slot, s1: Slot, taken: Option<ProcessHandle>)
    requires
        s0 is Empty,
        take_step(s0, s1, taken),
    ensures
        taken is None,
        s1 is Empty,
{
}

/// Start, stop, stop again: the first stop takes exactly the handle the
/// start stored, the second finds the slot empty and fails.
pub proof fn lemma_double_stop(
    s0: Slot,
    s1: Slot,
    s2: Slot,
    s3: Slot,
    s4: Slot,
    h: ProcessHandle,
    a: bool,
    t1: Option<ProcessHandle>,
    t2: Option<ProcessHandle>,
)
    requires
        s0 is Empty,
        claim_step(s0, s1, a),
        finish_step(s1, s2, Some(h)),
        take_step(s2, s3, t1),
        take_step(s3, s4, t2),
    ensures
        t1 == Some(h),
        t2 is None,
        s4 is Empty,
{
}

/// A failed spawn reopens the slot: the start that claimed it reports the
/// failure, the slot is empty again, and the next start claims it anew
/// instead of reporting already running.
pub proof fn lemma_failed_spawn_reopens_slot(
    s0: Slot,
    s1: Slot,
    s2: Slot,
    s3: Slot,
    a: bool,
    b: bool,
)
    requires
        s0 is Empty,
        claim_step(s0, s1, a),
        finish_step(s1, s2, None),
        claim_step(s2, s3, b),
    ensures
        a,
        s2 is Empty,
        b,
{
}

} // verus!
