//! Reacting to trigger events.  The processor routes the configured reactor
//! name over a group of events and tracks each event's state: events enter
//! the reacting state first and reach the reacted state only when the
//! reactor succeeds.  The two no-op reactors succeed or fail in place; the
//! circulation auto-renew reactor's own work is backend-driven, so a react
//! call names it as a step for the caller to run, and `finish_react` takes
//! that work's outcome and settles the event states accordingly.

use vstd::prelude::*;
use vstd::string::StringExecFns;
use crate::text::str_eq;

verus! {

/// Where an event stands in its life cycle.
#[derive(Clone, Copy, Debug, PartialEq, Eq, Structural)]
pub enum EventState {
    Pending,
    Reacting,
    Reacted,
    Error,
}

/// One trigger event.
#[derive(Clone, Copy, Debug)]
pub struct Event {
    pub id: i64,
    pub state: EventState,
}

impl Event {
    pub fn new(id: i64) -> (r: Event)
        ensures
            r.id == id,
            r.state == EventState::Pending,
    {
        Event { id, state: EventState::Pending }
    }

    pub fn id(&self) -> (r: i64)
        ensures
            r == self.id,
    {
        self.id
    }

    pub fn state(&self) -> (r: EventState)
        ensures
            r == self.state,
    {
        self.state
    }
}

/// What a react call asks of its caller: either the event group is fully
/// handled, or the reactor's own work remains to be run, with its outcome
/// handed to `finish_react`.
#[derive(Debug)]
pub enum ReactStep {
    /// Nothing is left to do.
    Complete,
    /// Run the circulation auto-renew reactor, then report its outcome.
    RunAutoRenew,
}

/// What a reactor name resolves to.
pub enum ReactorRoute {
    /// The no-op reactor that always succeeds.
    NoopTrue,
    /// The no-op reactor that always fails.
    NoopFalse,
    /// The circulation auto-renew reactor: backend-driven work.
    CircAutoRenew,
    /// No such reactor.
    Unknown,
}

/// The route a reactor name takes.
pub open spec fn reactor_route(name: Seq<char>) -> ReactorRoute {
    if name == "NOOP_True"@ {
        ReactorRoute::NoopTrue
    } else if name == "NOOP_False"@ {
        ReactorRoute::NoopFalse
    } else if name == "Circ::AutoRenew"@ {
        ReactorRoute::CircAutoRenew
    } else {
        ReactorRoute::Unknown
    }
}

/// Both lists hold the same events, by id and in order.
pub open spec fn same_ids(a: Seq<Event>, b: Seq<Event>) -> bool {
    a.len() == b.len() && (forall|i: int| 0 <= i < a.len() ==> (#[trigger] a[i]).id == b[i].id)
}

/// Every event stands in the given state.
pub open spec fn all_in_state(events: Seq<Event>, state: EventState) -> bool {
    forall|i: int| 0 <= i < events.len() ==> (#[trigger] events[i]).state == state
}

/// Put every event into the given state, keeping ids and order.
fn set_states(events: &mut Vec<Event>, state: EventState)
    ensures
        same_ids(final(events)@, old(events)@),
        all_in_state(final(events)@, state),
{
    let n = events.len();
    let mut updated: Vec<Event> = Vec::new();
    let mut i: usize = 0;
    while i < n
        invariant
            i <= n,
            n == events@.len(),
            updated@.len() == i,
            forall|k: int|
                0 <= k < i ==> (#[trigger] updated@[k]).id == events@[k].id && updated@[k].state
                    == state,
        decreases n - i,
    {
        updated.push(Event { id: events[i].id, state });
        i += 1;
    }
    *events = updated;
}

/// Runs reactors over trigger events.
pub struct Processor {
    /// The name of the configured reactor.
    pub reactor: String,
}

impl Processor {
    pub fn new(reactor: &str) -> (r: Processor)
        ensures
            r.reactor@ == reactor@,
    {
        Processor { reactor: String::from_str(reactor) }
    }

    /// React to one or more events; multiple events imply a linked group.
    /// No events is trivially complete.  Otherwise every event enters the
    /// reacting state, and the configured reactor decides what follows: the
    /// always-succeeding no-op completes the group, marking every event
    /// reacted; the always-failing no-op and an unknown name fail, leaving
    /// the events reacting; and the circulation auto-renew reactor — whose
    /// work runs against the backend — is handed back as a step for the
    /// caller, to be settled through `finish_react`.
    pub fn react(&mut self, events: &mut Vec<Event>) -> (r: Result<ReactStep, String>)
        ensures
            *final(self) == *old(self),
            old(events)@.len() == 0 ==> r == Ok::<ReactStep, String>(ReactStep::Complete)
                && final(events)@ == old(events)@,
            old(events)@.len() > 0 ==> {
                &&& same_ids(final(events)@, old(events)@)
                &&& match reactor_route(old(self).reactor@) {
                    ReactorRoute::NoopTrue => r == Ok::<ReactStep, String>(ReactStep::Complete)
                        && all_in_state(final(events)@, EventState::Reacted),
                    ReactorRoute::NoopFalse => (r matches Err(e) && e@ == "NOOP_False"@)
                        && all_in_state(final(events)@, EventState::Reacting),
                    ReactorRoute::CircAutoRenew => r == Ok::<ReactStep, String>(
                        ReactStep::RunAutoRenew,
                    ) && all_in_state(final(events)@, EventState::Reacting),
                    ReactorRoute::Unknown => (r matches Err(_)) && all_in_state(
                        final(events)@,
                        EventState::Reacting,
                    ),
                }
            },
    {
        if events.len() == 0 {
            return Ok(ReactStep::Complete);
        }
        let is_true = str_eq(self.reactor.as_str(), "NOOP_True");
        let new_state = if is_true {
            EventState::Reacted
        } else {
            EventState::Reacting
        };
        set_states(events, new_state);
        if is_true {
            Ok(ReactStep::Complete)
        } else if str_eq(self.reactor.as_str(), "NOOP_False") {
            Err(String::from_str("NOOP_False"))
        } else if str_eq(self.reactor.as_str(), "Circ::AutoRenew") {
            Ok(ReactStep::RunAutoRenew)
        } else {
            Err(String::from_str("No such reactor"))
        }
    }

    /// Settle a react step whose reactor work ran outside: a successful
    /// outcome marks every event reacted; a failure leaves the events as
    /// they stand — still reacting — and surfaces the error.
    pub fn finish_react(&mut self, events: &mut Vec<Event>, outcome: Result<(), String>) -> (r:
        Result<(), String>)
        ensures
            *final(self) == *old(self),
            r == outcome,
            outcome is Ok ==> same_ids(final(events)@, old(events)@) && all_in_state(
                final(events)@,
                EventState::Reacted,
            ),
            outcome is Err ==> final(events)@ == old(events)@,
    {
        match outcome {
            Ok(u) => {
                set_states(events, EventState::Reacted);
                Ok(u)
            },
            Err(e) => Err(e),
        }
    }
}

} // verus!
