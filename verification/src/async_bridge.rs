//! The async bridge: one ticket per delegated call in flight, with a
//! completion slot that only its first writer fills.
//!
//! The bridge itself never waits. The runtime around it wakes the suspended
//! caller whenever a method reports that it filled a slot, and the woken
//! caller collects the result with [`AsyncBridge::take`].

use crate::error::native_failure;
use crate::error::ErrorKind;
use crate::error::ErrorRecord;
use crate::error::KindView;
use crate::task::copy_outcome;
use crate::task::outcome_view;
use crate::task::OutcomeView;
use crate::task::TaskResult;
use crate::task::TaskResultView;
use crate::value::Value;
use std::collections::HashMap;
use vstd::prelude::*;

verus! {

broadcast use vstd::std_specs::hash::group_hash_axioms;

/// The record of one delegated call in flight.
#[derive(Debug, Clone, PartialEq, Eq)]
pub struct BridgeTicket {
    pub task_id: u64,
    /// The instant after which the caller is no longer kept waiting.
    pub deadline: Option<u64>,
    /// The completion slot: empty until its first writer fills it.
    pub native_waiter: Option<Result<Value, ErrorRecord>>,
    /// Set once interruption of the call has been asked for.
    pub cancel_flag: bool,
}

/// Mathematical model of a [`BridgeTicket`].
pub struct TicketView {
    pub task_id: u64,
    pub deadline: Option<u64>,
    pub native_waiter: Option<OutcomeView>,
    pub cancel_flag: bool,
}

impl View for BridgeTicket {
    type V = TicketView;

    open spec fn view(&self) -> TicketView {
        TicketView {
            task_id: self.task_id,
            deadline: self.deadline,
            native_waiter: match self.native_waiter {
                Some(outcome) => Some(outcome_view(outcome)),
                None => None,
            },
            cancel_flag: self.cancel_flag,
        }
    }
}

/// The tickets of the calls in flight, by task id.
pub type BridgeView = Map<u64, TicketView>;

/// The outcome that a cancellation writes.
pub open spec fn cancelled_outcome() -> OutcomeView {
    Err(native_failure(KindView::Cancelled, "delegated call was cancelled"@))
}

/// The outcome that an elapsed deadline writes.
pub open spec fn timeout_outcome() -> OutcomeView {
    Err(native_failure(KindView::Timeout, "deadline elapsed before completion"@))
}

/// The ticket of a call that has just been issued.
pub open spec fn fresh_ticket(task_id: u64, deadline: Option<u64>) -> TicketView {
    TicketView { task_id, deadline, native_waiter: None, cancel_flag: false }
}

/// A write to the completion slot: it lands only in an empty slot.
pub open spec fn write_slot(ticket: TicketView, outcome: OutcomeView) -> TicketView {
    if ticket.native_waiter is None {
        TicketView { native_waiter: Some(outcome), ..ticket }
    } else {
        ticket
    }
}

/// Whether the caller of this ticket has waited past its deadline.
pub open spec fn is_due(ticket: TicketView, now: u64) -> bool {
    ticket.native_waiter is None && ticket.deadline is Some && now >= ticket.deadline->0
}

/// Whether a write to the slot of `task_id` would land.
pub open spec fn is_waiting(tickets: BridgeView, task_id: u64) -> bool {
    tickets.contains_key(task_id) && tickets[task_id].native_waiter is None
}

/// The tickets after a call has been issued under a new id.
pub open spec fn delegated(tickets: BridgeView, task_id: u64, deadline: Option<u64>) -> BridgeView {
    tickets.insert(task_id, fresh_ticket(task_id, deadline))
}

/// The tickets after the call of `task_id` reported its outcome.
pub open spec fn completed(tickets: BridgeView, task_id: u64, outcome: OutcomeView) -> BridgeView {
    if tickets.contains_key(task_id) {
        tickets.insert(task_id, write_slot(tickets[task_id], outcome))
    } else {
        tickets
    }
}

/// The tickets after cancellation of `task_id` was asked for.
pub open spec fn cancelled(tickets: BridgeView, task_id: u64) -> BridgeView {
    if tickets.contains_key(task_id) {
        tickets.insert(
            task_id,
            TicketView { cancel_flag: true, ..write_slot(tickets[task_id], cancelled_outcome()) },
        )
    } else {
        tickets
    }
}

/// The tickets after the deadline of `task_id` was checked at `now`.
pub open spec fn expired(tickets: BridgeView, task_id: u64, now: u64) -> BridgeView {
    if tickets.contains_key(task_id) && is_due(tickets[task_id], now) {
        tickets.insert(
            task_id,
            TicketView { cancel_flag: true, ..write_slot(tickets[task_id], timeout_outcome()) },
        )
    } else {
        tickets
    }
}

/// The result that waits in the slot of `task_id`, if the slot is filled.
pub open spec fn resolved(tickets: BridgeView, task_id: u64) -> Option<TaskResultView> {
    if tickets.contains_key(task_id) && tickets[task_id].native_waiter is Some {
        Some(TaskResultView { id: task_id, outcome: tickets[task_id].native_waiter->0 })
    } else {
        None
    }
}

/// The tickets after the caller of `task_id` tried to collect its result.
pub open spec fn taken(tickets: BridgeView, task_id: u64) -> BridgeView {
    if resolved(tickets, task_id) is Some {
        tickets.remove(task_id)
    } else {
        tickets
    }
}

/// First writer wins: once the slot of a ticket is filled, no completion,
/// cancellation or deadline changes the result that its caller will
/// collect.
pub proof fn lemma_first_writer_wins(
    tickets: BridgeView,
    task_id: u64,
    outcome: OutcomeView,
    now: u64,
)
    requires
        resolved(tickets, task_id) is Some,
    ensures
        resolved(completed(tickets, task_id, outcome), task_id) == resolved(tickets, task_id),
        resolved(cancelled(tickets, task_id), task_id) == resolved(tickets, task_id),
        resolved(expired(tickets, task_id, now), task_id) == resolved(tickets, task_id),
{
}

/// Whichever event reaches an empty slot first decides the result.
pub proof fn lemma_first_event_decides(
    tickets: BridgeView,
    task_id: u64,
    outcome: OutcomeView,
    now: u64,
)
    requires
        is_waiting(tickets, task_id),
    ensures
        resolved(completed(tickets, task_id, outcome), task_id) == Some(
            TaskResultView { id: task_id, outcome },
        ),
        resolved(cancelled(tickets, task_id), task_id) == Some(
            TaskResultView { id: task_id, outcome: cancelled_outcome() },
        ),
        is_due(tickets[task_id], now) ==> resolved(expired(tickets, task_id, now), task_id) == Some(
            TaskResultView { id: task_id, outcome: timeout_outcome() },
        ),
        !is_due(tickets[task_id], now) ==> expired(tickets, task_id, now) == tickets,
{
}

/// No event on one ticket touches another.
pub proof fn lemma_tickets_independent(
    tickets: BridgeView,
    task_id: u64,
    other: u64,
    outcome: OutcomeView,
    now: u64,
)
    requires
        task_id != other,
    ensures
        completed(tickets, task_id, outcome).contains_key(other) == tickets.contains_key(other),
        completed(tickets, task_id, outcome)[other] == tickets[other],
        cancelled(tickets, task_id).contains_key(other) == tickets.contains_key(other),
        cancelled(tickets, task_id)[other] == tickets[other],
        expired(tickets, task_id, now).contains_key(other) == tickets.contains_key(other),
        expired(tickets, task_id, now)[other] == tickets[other],
        taken(tickets, task_id).contains_key(other) == tickets.contains_key(other),
        taken(tickets, task_id)[other] == tickets[other],
{
}

/// The registry of delegated calls in flight.
#[derive(Debug)]
pub struct AsyncBridge {
    tickets: HashMap<u64, BridgeTicket>,
}

impl View for AsyncBridge {
    type V = BridgeView;

    closed spec fn view(&self) -> BridgeView {
        self.tickets@.map_values(|ticket: BridgeTicket| ticket@)
    }
}

impl AsyncBridge {
    /// A bridge with no call in flight.
    pub fn new() -> (r: Self)
        ensures
            r@ == Map::<u64, TicketView>::empty(),
    {
        let r = AsyncBridge { tickets: HashMap::new() };
        assert(r@ =~= Map::<u64, TicketView>::empty());
        r
    }

    /// Whether a ticket exists for `task_id`.
    pub fn has_ticket(&self, task_id: u64) -> (r: bool)
        ensures
            r == self@.contains_key(task_id),
    {
        self.tickets.contains_key(&task_id)
    }

    /// The number of tickets.
    pub fn in_flight(&self) -> (n: usize)
        ensures
            n == self@.len(),
    {
        proof {
            assert(self@.dom() =~= self.tickets@.dom());
        }
        self.tickets.len()
    }

    /// Issues a delegated call: allocates its ticket, with an empty slot.
    /// There is one ticket per call in flight, so an id that already has a
    /// ticket is refused as `DuplicateTask` and nothing changes.
    pub fn delegate(&mut self, task_id: u64, deadline: Option<u64>) -> (r: Result<(), ErrorRecord>)
        ensures
            old(self)@.contains_key(task_id) ==> final(self)@ == old(self)@ && r is Err && r->Err_0@
                == native_failure(KindView::DuplicateTask, "a call with this id is in flight"@),
            !old(self)@.contains_key(task_id) ==> r is Ok && final(self)@ == delegated(
                old(self)@,
                task_id,
                deadline,
            ),
    {
        if self.tickets.contains_key(&task_id) {
            return Err(
                ErrorRecord::new(ErrorKind::DuplicateTask, "a call with this id is in flight"),
            );
        }
        let ticket = BridgeTicket { task_id, deadline, native_waiter: None, cancel_flag: false };
        self.tickets.insert(task_id, ticket);
        assert(self@ =~= delegated(old(self)@, task_id, deadline));
        Ok(())
    }

    /// Writes the outcome of the call into its slot. Returns whether the
    /// write landed, that is, whether the caller is to be woken; a slot that
    /// is already filled keeps what it holds.
    pub fn complete(&mut self, task_id: u64, outcome: Result<Value, ErrorRecord>) -> (woken: bool)
        ensures
            final(self)@ == completed(old(self)@, task_id, outcome_view(outcome)),
            woken == is_waiting(old(self)@, task_id),
    {
        match self.tickets.remove(&task_id) {
            None => {
                assert(self@ =~= old(self)@);
                false
            },
            Some(ticket) => {
                let woken = ticket.native_waiter.is_none();
                let slot = if woken {
                    Some(outcome)
                } else {
                    ticket.native_waiter
                };
                let updated = BridgeTicket {
                    task_id: ticket.task_id,
                    deadline: ticket.deadline,
                    native_waiter: slot,
                    cancel_flag: ticket.cancel_flag,
                };
                self.tickets.insert(task_id, updated);
                assert(self@ =~= completed(old(self)@, task_id, outcome_view(outcome)));
                woken
            },
        }
    }

    /// Asks for the call to be interrupted. The flag is advisory: the call
    /// may still run to its end. If the slot is still empty it is filled
    /// with `Cancelled`, and the return value says so: the caller is then
    /// to be woken. A slot that is already filled keeps what it holds.
    pub fn cancel(&mut self, task_id: u64) -> (woken: bool)
        ensures
            final(self)@ == cancelled(old(self)@, task_id),
            woken == is_waiting(old(self)@, task_id),
    {
        match self.tickets.remove(&task_id) {
            None => {
                assert(self@ =~= old(self)@);
                false
            },
            Some(ticket) => {
                let woken = ticket.native_waiter.is_none();
                let slot = if woken {
                    Some(
                        Err(
                            ErrorRecord::new(ErrorKind::Cancelled, "delegated call was cancelled"),
                        ),
                    )
                } else {
                    ticket.native_waiter
                };
                let updated = BridgeTicket {
                    task_id: ticket.task_id,
                    deadline: ticket.deadline,
                    native_waiter: slot,
                    cancel_flag: true,
                };
                self.tickets.insert(task_id, updated);
                assert(self@ =~= cancelled(old(self)@, task_id));
                woken
            },
        }
    }

    /// Checks the deadline of a call at the instant `now`. If the slot is
    /// still empty and the deadline has been reached, the slot is filled
    /// with `Timeout` and the ticket is marked cancelled; the return value
    /// says so, and the caller is then to be woken. The ticket stays until
    /// its result is taken; an outcome that the call reports later is
    /// dropped.
    pub fn expire(&mut self, task_id: u64, now: u64) -> (woken: bool)
        ensures
            final(self)@ == expired(old(self)@, task_id, now),
            woken == (old(self)@.contains_key(task_id) && is_due(old(self)@[task_id], now)),
    {
        match self.tickets.remove(&task_id) {
            None => {
                assert(self@ =~= old(self)@);
                false
            },
            Some(ticket) => {
                let due = ticket.native_waiter.is_none() && match ticket.deadline {
                    Some(deadline) => now >= deadline,
                    None => false,
                };
                let updated = if due {
                    BridgeTicket {
                        task_id: ticket.task_id,
                        deadline: ticket.deadline,
                        native_waiter: Some(
                            Err(
                                ErrorRecord::new(
                                    ErrorKind::Timeout,
                                    "deadline elapsed before completion",
                                ),
                            ),
                        ),
                        cancel_flag: true,
                    }
                } else {
                    ticket
                };
                self.tickets.insert(task_id, updated);
                assert(self@ =~= expired(old(self)@, task_id, now));
                due
            },
        }
    }

    /// Whether interruption of the call has been asked for. The callee
    /// reads this at the points where it can still stop.
    pub fn is_cancelled(&self, task_id: u64) -> (r: bool)
        ensures
            r == (self@.contains_key(task_id) && self@[task_id].cancel_flag),
    {
        match self.tickets.get(&task_id) {
            Some(ticket) => ticket.cancel_flag,
            None => false,
        }
    }

    /// Collects the result of a call. While the slot is empty there is
    /// nothing to collect and nothing changes; once it is filled, the result
    /// is handed out under the call's id and the ticket is destroyed.
    pub fn take(&mut self, task_id: u64) -> (r: Option<TaskResult>)
        ensures
            final(self)@ == taken(old(self)@, task_id),
            match r {
                Some(result) => resolved(old(self)@, task_id) == Some(result@),
                None => resolved(old(self)@, task_id) is None,
            },
    {
        let filled = match self.tickets.get(&task_id) {
            Some(ticket) => ticket.native_waiter.is_some(),
            None => false,
        };
        if !filled {
            return None;
        }
        match self.tickets.remove(&task_id) {
            Some(ticket) => {
                assert(self@ =~= taken(old(self)@, task_id));
                match ticket.native_waiter {
                    Some(outcome) => Some(TaskResult { id: task_id, outcome }),
                    None => None,
                }
            },
            None => None,
        }
    }

    /// The result that waits for the caller, without collecting it.
    pub fn peek(&self, task_id: u64) -> (r: Option<TaskResult>)
        ensures
            match r {
                Some(result) => resolved(self@, task_id) == Some(result@),
                None => resolved(self@, task_id) is None,
            },
    {
        match self.tickets.get(&task_id) {
            Some(ticket) => match &ticket.native_waiter {
                Some(outcome) => Some(TaskResult { id: task_id, outcome: copy_outcome(outcome) }),
                None => None,
            },
            None => None,
        }
    }
}

impl Default for AsyncBridge {
    fn default() -> (r: Self)
        ensures
            r@ == Map::<u64, TicketView>::empty(),
    {
        AsyncBridge::new()
    }
}

} // verus!
