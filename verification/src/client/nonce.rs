use vstd::prelude::*;

verus! {

/// Tracks and assigns sequential Ethereum nonces for concurrent transactions.
pub struct NonceManager {
    /// Last known on-chain nonce.
    pub base_nonce: u64,
    /// Number of in-flight (pending) transactions.
    pub in_flight: u64,
}

/// The nonce that `next_nonce` hands out in state `m`.
pub open spec fn nonce_of(m: NonceManager) -> int {
    m.base_nonce + m.in_flight
}

/// The state after `next_nonce`: one more transaction in flight.
pub open spec fn after_next(m: NonceManager) -> NonceManager {
    NonceManager { base_nonce: m.base_nonce, in_flight: (m.in_flight + 1) as u64 }
}

/// The state after `complete`: one fewer transaction in flight, never below zero.
pub open spec fn after_complete(m: NonceManager) -> NonceManager {
    NonceManager {
        base_nonce: m.base_nonce,
        in_flight: if m.in_flight > 0 {
            (m.in_flight - 1) as u64
        } else {
            0
        },
    }
}

impl NonceManager {
    /// Returns the next available nonce, `base_nonce + in_flight`, and increments
    /// the in-flight counter.
    pub fn next_nonce(&mut self) -> (nonce: u64)
        requires
            old(self).base_nonce + old(self).in_flight <= u64::MAX,
            old(self).in_flight + 1 <= u64::MAX,
        ensures
            nonce == nonce_of(*old(self)),
            *final(self) == after_next(*old(self)),
    {
        let nonce = self.base_nonce + self.in_flight;
        self.in_flight = self.in_flight + 1;
        nonce
    }

    /// Marks a transaction as completed by decrementing the in-flight counter,
    /// which never goes below zero.
    pub fn complete(&mut self)
        ensures
            *final(self) == after_complete(*old(self)),
    {
        if self.in_flight > 0 {
            self.in_flight = self.in_flight - 1;
        }
    }
}

/// Two successive calls of `next_nonce` hand out consecutive nonces, so no nonce is
/// handed out twice while none completes.
pub proof fn law_successive_nonces_are_consecutive(m: NonceManager)
    requires
        m.in_flight + 1 <= u64::MAX,
    ensures
        nonce_of(after_next(m)) == nonce_of(m) + 1,
{
}

/// `complete` after `next_nonce` gives back the state before both.
pub proof fn law_complete_undoes_next(m: NonceManager)
    requires
        m.in_flight + 1 <= u64::MAX,
    ensures
        after_complete(after_next(m)) == m,
{
}

/// `complete` never changes the base nonce and never raises the in-flight count;
/// with nothing in flight it changes nothing.
pub proof fn law_complete_never_underflows(m: NonceManager)
    ensures
        after_complete(m).base_nonce == m.base_nonce,
        after_complete(m).in_flight <= m.in_flight,
        m.in_flight == 0 ==> after_complete(m) == m,
{
}

} // verus!
