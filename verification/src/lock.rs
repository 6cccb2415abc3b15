//! The issuance lock: at most one issuance per session is in flight, and a
//! lock that was never released lapses by itself.

use vstd::hash_map::StringHashMap;
use vstd::prelude::*;
use vstd::string::*;

verus! {

/// How long a lock holds without release: ten seconds, in nanoseconds.
pub const GRACE_WINDOW_NS: u64 = 10_000_000_000;

/// Time elapsed from `since` to `now`, zero where the clock ran backwards.
pub open spec fn elapsed(now: u64, since: u64) -> int {
    if now >= since {
        now - since
    } else {
        0
    }
}

/// A lock for `session` is held at `now`: it was taken less than the grace
/// window ago.
pub open spec fn is_held(locks: Map<Seq<char>, u64>, session: Seq<char>, now: u64) -> bool {
    locks.contains_key(session) && elapsed(now, locks[session]) < GRACE_WINDOW_NS
}

/// The lock of the session is held by another issuance.
#[derive(Clone, Copy, Debug, PartialEq, Eq, Structural)]
pub struct Busy;

/// Sessions with an issuance in flight, each with the time at which its lock
/// was taken.
pub struct IssuanceLock {
    held: StringHashMap<u64>,
}

impl View for IssuanceLock {
    type V = Map<Seq<char>, u64>;

    closed spec fn view(&self) -> Map<Seq<char>, u64> {
        self.held@
    }
}

impl IssuanceLock {
    /// No session is locked.
    pub fn new() -> (r: IssuanceLock)
        ensures
            r@ == Map::<Seq<char>, u64>::empty(),
    {
        IssuanceLock { held: StringHashMap::new() }
    }

    /// When the lock of `session_id` was taken, if an entry exists.
    pub fn taken_at(&self, session_id: &String) -> (r: Option<u64>)
        ensures
            r == if self@.contains_key(session_id@) {
                Some(self@[session_id@])
            } else {
                None
            },
    {
        match self.held.get(session_id.as_str()) {
            Some(t) => Some(*t),
            None => None,
        }
    }

    /// Takes the lock of `session_id` at `now`, unless it is held. A lapsed
    /// entry is overwritten.
    pub fn acquire(&mut self, session_id: &String, now: u64) -> (r: Result<(), Busy>)
        ensures
            is_held(old(self)@, session_id@, now) ==> r is Err && final(self)@ == old(self)@,
            !is_held(old(self)@, session_id@, now) ==> r is Ok && final(self)@ == old(self)@.insert(
                session_id@,
                now,
            ),
    {
        match self.held.get(session_id.as_str()) {
            Some(since) => {
                let waited: u64 = if now >= *since {
                    now - *since
                } else {
                    0
                };
                if waited < GRACE_WINDOW_NS {
                    return Err(Busy);
                }
            },
            None => {},
        }
        self.held.insert(session_id.clone(), now);
        Ok(())
    }

    /// Gives the lock of `session_id` back; a session without lock stays so.
    pub fn release(&mut self, session_id: &String)
        ensures
            final(self)@ == old(self)@.remove(session_id@),
    {
        self.held.remove(session_id.as_str());
    }
}

/// Takes the issuance lock of `session_id`, or reports that an issuance for
/// it is in flight.
pub fn check_reentrancy_certificate(locks: &mut IssuanceLock, session_id: &String, now: u64) -> (r:
    Result<(), Busy>)
    ensures
        is_held(old(locks)@, session_id@, now) ==> r is Err && final(locks)@ == old(locks)@,
        !is_held(old(locks)@, session_id@, now) ==> r is Ok && final(locks)@ == old(locks)@.insert(
            session_id@,
            now,
        ),
{
    locks.acquire(session_id, now)
}

/// Gives the issuance lock of `session_id` back.
pub fn release_reentrancy_certificate(locks: &mut IssuanceLock, session_id: &String)
    ensures
        final(locks)@ == old(locks)@.remove(session_id@),
{
    locks.release(session_id)
}

/// While a lock is held, a second attempt to take it is refused: after a
/// successful `acquire` at `first`, an `acquire` for the same session at any
/// `second` less than the grace window later finds the lock held.
pub proof fn lemma_second_acquire_is_busy(
    locks: Map<Seq<char>, u64>,
    session: Seq<char>,
    first: u64,
    second: u64,
)
    requires
        elapsed(second, first) < GRACE_WINDOW_NS,
    ensures
        is_held(locks.insert(session, first), session, second),
{
}

/// A lock that was given back is not held, and a lock that has outlived the
/// grace window is not held either.
pub proof fn lemma_released_or_lapsed_is_free(
    locks: Map<Seq<char>, u64>,
    session: Seq<char>,
    now: u64,
)
    ensures
        !is_held(locks.remove(session), session, now),
        locks.contains_key(session) && elapsed(now, locks[session]) >= GRACE_WINDOW_NS ==> !is_held(
            locks,
            session,
            now,
        ),
{
}

} // verus!
