//! Outstanding action requests and their single resolution.
//!
//! Each request is known by the pair (player id, request id). It is
//! registered with a waiter, the party that wants its outcome, and resolved
//! at most once: by a response from the bot, by its timeout, or by a failed
//! delivery. The first resolution removes the request and hands the waiter
//! its outcome; any later one finds nothing and changes nothing.
use vstd::prelude::*;

use crate::table::KeyedTable;

verus! {

#[derive(Debug, Clone, Copy, PartialEq, Eq, Structural)]
pub enum RequestError {
    /// No response came in time, or the bot could not be reached.
    Timeout,
}

/// How a request ends: the response bytes, or an error.
pub type RequestOutcome = Result<Vec<u8>, RequestError>;

/// A resolved request: its waiter and the outcome to hand it.
pub struct Delivery<W> {
    pub waiter: W,
    pub outcome: RequestOutcome,
}

/// The abstract set of pending requests: (player id, request id) to waiter.
pub type PendingTable<W> = Map<(u32, u32), W>;

/// Registering `waiter` under `key`: refused, with the waiter handed back,
/// where a request under that key is already pending.
pub open spec fn register_step<W>(pending: PendingTable<W>, key: (u32, u32), waiter: W) -> (
    PendingTable<W>,
    Result<(), W>,
) {
    if pending.contains_key(key) {
        (pending, Err(waiter))
    } else {
        (pending.insert(key, waiter), Ok(()))
    }
}

/// Resolving `key` with `outcome`: the first resolution of a pending
/// request removes it and delivers; anything else is a no-op.
pub open spec fn resolve_step<W>(pending: PendingTable<W>, key: (u32, u32), outcome: RequestOutcome) -> (
    PendingTable<W>,
    Option<Delivery<W>>,
) {
    if pending.contains_key(key) {
        (pending.remove(key), Some(Delivery { waiter: pending[key], outcome }))
    } else {
        (pending, None)
    }
}

/// Tracks the outstanding requests of every player of a match.
pub struct Correlator<W> {
    pending: KeyedTable<(u32, u32), W>,
}

impl<W> View for Correlator<W> {
    type V = PendingTable<W>;

    closed spec fn view(&self) -> PendingTable<W> {
        self.pending@
    }
}

impl<W> Correlator<W> {
    pub closed spec fn wf(&self) -> bool {
        self.pending.wf()
    }

    pub fn new() -> (r: Self)
        ensures
            r.wf(),
            r@ == PendingTable::<W>::empty(),
    {
        Correlator { pending: KeyedTable::new() }
    }

    /// Whether a request under (player_id, request_id) is pending.
    pub fn is_pending(&self, player_id: u32, request_id: u32) -> (r: bool)
        requires
            self.wf(),
        ensures
            r == self@.contains_key((player_id, request_id)),
    {
        self.pending.contains_key(&(player_id, request_id))
    }

    /// Registers a pending request with its waiter. Where a request under
    /// the same key is already pending, it is left as it was and the new
    /// waiter is handed back.
    pub fn register_request(&mut self, player_id: u32, request_id: u32, waiter: W) -> (r: Result<
        (),
        W,
    >)
        requires
            old(self).wf(),
        ensures
            final(self).wf(),
            (final(self)@, r) == register_step(old(self)@, (player_id, request_id), waiter),
    {
        if self.is_pending(player_id, request_id) {
            return Err(waiter);
        }
        self.pending.insert((player_id, request_id), waiter);
        Ok(())
    }

    /// Resolves the request under (player_id, request_id) with `outcome`.
    /// The first resolution removes it and returns its waiter with the
    /// outcome; a request that is not pending is left alone.
    pub fn resolve_request(&mut self, player_id: u32, request_id: u32, outcome: RequestOutcome) -> (r:
        Option<Delivery<W>>)
        requires
            old(self).wf(),
        ensures
            final(self).wf(),
            (final(self)@, r) == resolve_step(old(self)@, (player_id, request_id), outcome),
    {
        match self.pending.remove(&(player_id, request_id)) {
            Some(waiter) => Some(Delivery { waiter, outcome }),
            None => None,
        }
    }

    /// Resolves the request under (player_id, request_id) as timed out:
    /// what a deadline that elapses, or a delivery that fails, does.
    pub fn time_out_request(&mut self, player_id: u32, request_id: u32) -> (r: Option<Delivery<W>>)
        requires
            old(self).wf(),
        ensures
            final(self).wf(),
            (final(self)@, r) == resolve_step(
                old(self)@,
                (player_id, request_id),
                Err(RequestError::Timeout),
            ),
    {
        self.resolve_request(player_id, request_id, Err(RequestError::Timeout))
    }
}

/// Single resolution: a pending request resolved twice is delivered once,
/// with the outcome of the first resolution; the second finds nothing and
/// changes nothing, whatever outcome it carries.
pub proof fn lemma_single_resolution<W>(
    pending: PendingTable<W>,
    key: (u32, u32),
    first: RequestOutcome,
    second: RequestOutcome,
)
    requires
        pending.contains_key(key),
    ensures
        ({
            let (after_first, delivered) = resolve_step(pending, key, first);
            let (after_second, again) = resolve_step(after_first, key, second);
            &&& delivered == Some(Delivery { waiter: pending[key], outcome: first })
            &&& again.is_none()
            &&& after_second == after_first
            &&& after_first == pending.remove(key)
        }),
{
}

/// Isolation: registering or resolving one request leaves every other
/// pending request exactly as it was.
pub proof fn lemma_requests_isolated<W>(
    pending: PendingTable<W>,
    key: (u32, u32),
    other: (u32, u32),
    waiter: W,
    outcome: RequestOutcome,
)
    requires
        key != other,
    ensures
        register_step(pending, key, waiter).0.contains_key(other) == pending.contains_key(other),
        resolve_step(pending, key, outcome).0.contains_key(other) == pending.contains_key(other),
        pending.contains_key(other) ==> register_step(pending, key, waiter).0[other]
            == pending[other],
        pending.contains_key(other) ==> resolve_step(pending, key, outcome).0[other]
            == pending[other],
{
}

} // verus!
