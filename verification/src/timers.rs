//! The timer-token registry. Some native timer primitives identify a pending
//! timer by a caller-chosen raw numeric token; a stale token must never reach
//! user code after its timer is gone. The registry owns the tokens: it hands
//! out indices that are unique for its whole lifetime (a cancelled slot is
//! never reused), and a tick is allowed only while its token's slot is live.

use vstd::prelude::*;

verus! {

/// Token `token` names a live slot in the table `slots`.
pub open spec fn live_in(slots: Seq<bool>, token: int) -> bool {
    0 <= token < slots.len() && slots[token]
}

/// The slot table after a cancellation of `token`.
pub open spec fn cancelled(slots: Seq<bool>, token: int) -> Seq<bool> {
    if 0 <= token < slots.len() {
        slots.update(token, false)
    } else {
        slots
    }
}

/// The registration table mapping raw timer tokens to liveness. A token is
/// the index of its slot; slots are only ever appended, so a token means the
/// same timer for the registry's whole lifetime.
pub struct TimerRegistry {
    pub slots: Vec<bool>,
}

impl TimerRegistry {
    /// Token `token` names a registered, not-yet-cancelled timer.
    pub open spec fn token_live(self, token: int) -> bool {
        live_in(self.slots@, token)
    }

    /// An empty registry: no token is live.
    pub fn new() -> (r: TimerRegistry)
        ensures
            r.slots@.len() == 0,
            forall|t: int| !r.token_live(t),
    {
        TimerRegistry { slots: Vec::new() }
    }

    /// Registers a fresh timer and returns its token. The token was never
    /// handed out before and no other token changes liveness.
    pub fn register(&mut self) -> (token: usize)
        ensures
            token == old(self).slots@.len(),
            final(self).slots@.len() == old(self).slots@.len() + 1,
            final(self).token_live(token as int),
            !old(self).token_live(token as int),
            forall|t: int|
                t != token ==> final(self).token_live(t) == old(self).token_live(t),
    {
        let token = self.slots.len();
        self.slots.push(true);
        token
    }

    /// Cancels the timer behind `token`. Afterward the token is dead; every
    /// other token keeps its liveness. Cancelling an unknown or already
    /// cancelled token changes nothing.
    pub fn cancel(&mut self, token: usize)
        ensures
            final(self).slots@ == cancelled(old(self).slots@, token as int),
            !final(self).token_live(token as int),
            final(self).slots@.len() == old(self).slots@.len(),
            forall|t: int|
                t != token ==> final(self).token_live(t) == old(self).token_live(t),
    {
        if token < self.slots.len() {
            self.slots.set(token, false);
        }
    }

    /// Whether `token` names a live timer.
    pub fn is_live(&self, token: usize) -> (r: bool)
        ensures
            r == self.token_live(token as int),
    {
        if token < self.slots.len() {
            self.slots[token]
        } else {
            false
        }
    }
}

/// Law: once a token is cancelled it is dead, whatever its earlier state,
/// and no other token's timer is touched by the cancellation.
pub proof fn lemma_cancel_kills_token(slots: Seq<bool>, token: int)
    ensures
        !live_in(cancelled(slots, token), token),
        forall|t: int| t != token ==> live_in(cancelled(slots, token), t) == live_in(slots, t),
{
}

} // verus!
