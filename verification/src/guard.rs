//! The deletion-confirmation ledger: a process-lifetime map from node
//! identity to the time its deletion was last requested.  A confirming
//! delete is accepted only while a request is less than thirty seconds old;
//! the ledger is not persisted, so a restart simply asks for a new request.

use vstd::hash_map::HashMapWithView;
use vstd::prelude::*;

verus! {

/// The confirmation window, in milliseconds.
pub const CONFIRMATION_WINDOW_MS: u64 = 30000;

/// A confirming delete of `id` at `now_ms` is accepted: a ticket exists, does
/// not lie in the future, and is younger than the confirmation window.
pub open spec fn can_confirm_spec(tickets: Map<u8, u64>, id: u8, now_ms: u64) -> bool {
    &&& tickets.contains_key(id)
    &&& tickets[id] <= now_ms
    &&& now_ms - tickets[id] < CONFIRMATION_WINDOW_MS
}

/// The in-memory ledger of deletion requests.
pub struct DeletionGuard {
    tickets: HashMapWithView<u8, u64>,
}

impl View for DeletionGuard {
    type V = Map<u8, u64>;

    closed spec fn view(&self) -> Map<u8, u64> {
        self.tickets@
    }
}

impl DeletionGuard {
    /// An empty ledger: nothing is confirmable.
    pub fn new() -> (r: DeletionGuard)
        ensures
            r@ == Map::<u8, u64>::empty(),
    {
        DeletionGuard { tickets: HashMapWithView::new() }
    }

    /// Records, or refreshes, the deletion request for `id` at `now_ms`.
    /// Repeated requests are not an error; the newest timestamp wins.
    pub fn request_deletion(&mut self, id: u8, now_ms: u64)
        ensures
            final(self)@ == old(self)@.insert(id, now_ms),
    {
        self.tickets.insert(id, now_ms);
    }

    /// Whether a confirming delete of `id` at `now_ms` is accepted.  A ticket
    /// that lies in the future (the clock went backwards) is not.
    pub fn can_confirm(&self, id: u8, now_ms: u64) -> (b: bool)
        ensures
            b == can_confirm_spec(self@, id, now_ms),
    {
        match self.tickets.get(&id) {
            Some(t) => *t <= now_ms && now_ms - *t < CONFIRMATION_WINDOW_MS,
            None => false,
        }
    }

    /// Removes the ticket of `id`, if any.
    pub fn clear(&mut self, id: u8)
        ensures
            final(self)@ == old(self)@.remove(id),
    {
        let _ = self.tickets.remove(&id);
    }
}

/// Requesting deletion enables an immediate confirmation: right after a
/// request at `now`, a confirming delete at `now` is accepted, whatever the
/// ledger held before.
pub proof fn lemma_request_enables_confirm(tickets: Map<u8, u64>, id: u8, now_ms: u64)
    ensures
        can_confirm_spec(tickets.insert(id, now_ms), id, now_ms),
{
}

/// Without a ticket there is no confirmation: a confirming delete of an
/// identity that was never requested (or whose ticket was cleared) is
/// rejected, whatever the time.
pub proof fn lemma_confirm_needs_ticket(tickets: Map<u8, u64>, id: u8, now_ms: u64)
    requires
        !tickets.contains_key(id),
    ensures
        !can_confirm_spec(tickets, id, now_ms),
{
}

/// A consumed ticket stays consumed: once the ticket of `id` is cleared, a
/// confirming delete of `id` is rejected until deletion is requested anew.
pub proof fn lemma_cleared_ticket_blocks_confirm(tickets: Map<u8, u64>, id: u8, now_ms: u64)
    ensures
        !can_confirm_spec(tickets.remove(id), id, now_ms),
{
}

/// A ticket expires: once the confirmation window has fully passed since the
/// request, a confirming delete is rejected until a new request is made.
pub proof fn lemma_confirm_window_expires(tickets: Map<u8, u64>, id: u8, t: u64, now_ms: u64)
    requires
        t + CONFIRMATION_WINDOW_MS <= now_ms,
    ensures
        !can_confirm_spec(tickets.insert(id, t), id, now_ms),
{
}

} // verus!
