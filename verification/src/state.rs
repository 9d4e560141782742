use vstd::prelude::*;

use crate::events::EventKind;
use crate::queue::SharedEventQueue;

verus! {

/// Optional start and end instants of the activity, as whole seconds since the
/// epoch. A `None` half is left unset on the wire.
#[derive(Clone, Copy, Debug, PartialEq, Eq)]
pub struct ActivityTimestamps {
    /// When the activity began.
    pub start: Option<u64>,
    /// When the activity will end.
    pub end: Option<u64>,
}

/// The desired "what the user is doing now" snapshot. Every field is optional:
/// a populated field is copied into the update call built from this payload,
/// an unpopulated one is left at the wire default (unset) — never explicitly
/// cleared. Once set, a field can only be overwritten, not unset.
#[derive(Clone, Debug, PartialEq, Eq)]
pub struct ActivityPayload {
    /// What the player is currently doing.
    pub details: Option<String>,
    /// The user's current party status.
    pub state: Option<String>,
    /// Whether this activity is an instanced game session.
    pub instance: Option<bool>,
    /// Elapsed or remaining time to display.
    pub timestamps: Option<ActivityTimestamps>,
}

/// The payload with nothing set.
pub open spec fn empty_payload() -> ActivityPayload {
    ActivityPayload { details: None, state: None, instance: None, timestamps: None }
}

/// One mutating access to the activity payload: which field is written, and
/// the value written to it.
#[derive(Clone, Debug, PartialEq, Eq)]
pub enum Mutation {
    /// Write the `details` field.
    Details(Option<String>),
    /// Write the `state` field.
    State(Option<String>),
    /// Write the `instance` field.
    Instance(Option<bool>),
    /// Write the `timestamps` field.
    Timestamps(Option<ActivityTimestamps>),
}

/// The payload after one mutating access.
pub open spec fn apply_mutation(p: ActivityPayload, m: Mutation) -> ActivityPayload {
    match m {
        Mutation::Details(v) => ActivityPayload { details: v, ..p },
        Mutation::State(v) => ActivityPayload { state: v, ..p },
        Mutation::Instance(v) => ActivityPayload { instance: v, ..p },
        Mutation::Timestamps(v) => ActivityPayload { timestamps: v, ..p },
    }
}

fn clone_opt_string(v: &Option<String>) -> (r: Option<String>)
    ensures
        r == *v,
{
    match v {
        Some(s) => Some(s.clone()),
        None => None,
    }
}

impl ActivityPayload {
    /// A payload with nothing set.
    pub fn new() -> (p: Self)
        ensures
            p == empty_payload(),
    {
        ActivityPayload { details: None, state: None, instance: None, timestamps: None }
    }

    /// An equal copy of this payload.
    pub fn snapshot(&self) -> (p: Self)
        ensures
            p == *self,
    {
        ActivityPayload {
            details: clone_opt_string(&self.details),
            state: clone_opt_string(&self.state),
            instance: self.instance,
            timestamps: self.timestamps,
        }
    }
}

/// The mutable, change-tracked activity resource: the current desired payload,
/// the dirty flag that records "mutated since the last sync tick", and the
/// handle to the shared queue of inbound lifecycle events.
///
/// Every mutating access goes through a method that raises the dirty flag, so
/// any number of mutations between two sync ticks coalesce into one pending
/// change; the sync routine consumes the flag.
pub struct ActivityState {
    payload: ActivityPayload,
    dirty: bool,
    events: SharedEventQueue,
}

impl ActivityState {
    /// The current desired payload.
    pub closed spec fn payload(&self) -> ActivityPayload {
        self.payload
    }

    /// Whether the payload was mutated since the last sync tick consumed it.
    pub closed spec fn dirty(&self) -> bool {
        self.dirty
    }

    /// The shared lifecycle-event queue handle.
    pub closed spec fn events(&self) -> SharedEventQueue {
        self.events
    }

    /// A fresh state around the given shared event queue: empty payload, with
    /// the change pending. A newly created state counts as changed, so the
    /// first sync tick issues one update carrying the initial payload — the
    /// sync routine runs at startup, not only after later mutations.
    pub fn new(events: SharedEventQueue) -> (s: Self)
        ensures
            s.payload() == empty_payload(),
            s.dirty(),
            s.events() == events,
    {
        ActivityState { payload: ActivityPayload::new(), dirty: true, events }
    }

    /// Performs one mutating access: writes the named field and marks the
    /// payload changed, whatever it held before.
    pub fn apply(&mut self, m: Mutation)
        ensures
            final(self).payload() == apply_mutation(old(self).payload(), m),
            final(self).dirty(),
            final(self).events() == old(self).events(),
    {
        match m {
            Mutation::Details(v) => {
                self.payload.details = v;
            }
            Mutation::State(v) => {
                self.payload.state = v;
            }
            Mutation::Instance(v) => {
                self.payload.instance = v;
            }
            Mutation::Timestamps(v) => {
                self.payload.timestamps = v;
            }
        }
        self.dirty = true;
    }

    /// Sets `details` and marks the payload changed.
    pub fn set_details(&mut self, details: Option<String>)
        ensures
            final(self).payload() == apply_mutation(old(self).payload(), Mutation::Details(details)),
            final(self).dirty(),
            final(self).events() == old(self).events(),
    {
        self.apply(Mutation::Details(details));
    }

    /// Sets `state` and marks the payload changed.
    pub fn set_state(&mut self, state: Option<String>)
        ensures
            final(self).payload() == apply_mutation(old(self).payload(), Mutation::State(state)),
            final(self).dirty(),
            final(self).events() == old(self).events(),
    {
        self.apply(Mutation::State(state));
    }

    /// Sets `instance` and marks the payload changed.
    pub fn set_instance(&mut self, instance: Option<bool>)
        ensures
            final(self).payload() == apply_mutation(old(self).payload(), Mutation::Instance(instance)),
            final(self).dirty(),
            final(self).events() == old(self).events(),
    {
        self.apply(Mutation::Instance(instance));
    }

    /// Sets `timestamps` and marks the payload changed.
    pub fn set_timestamps(&mut self, timestamps: Option<ActivityTimestamps>)
        ensures
            final(self).payload() == apply_mutation(old(self).payload(), Mutation::Timestamps(timestamps)),
            final(self).dirty(),
            final(self).events() == old(self).events(),
    {
        self.apply(Mutation::Timestamps(timestamps));
    }

    /// Reads the current payload.
    pub fn payload_ref(&self) -> (p: &ActivityPayload)
        ensures
            *p == self.payload(),
    {
        &self.payload
    }

    /// Reads the dirty flag without consuming it.
    pub fn is_dirty(&self) -> (b: bool)
        ensures
            b == self.dirty(),
    {
        self.dirty
    }

    /// Consumes the dirty flag: reports whether the payload was mutated since
    /// the last call, and clears the flag. The payload itself is untouched.
    pub fn take_dirty(&mut self) -> (was: bool)
        ensures
            was == old(self).dirty(),
            !final(self).dirty(),
            final(self).payload() == old(self).payload(),
            final(self).events() == old(self).events(),
    {
        let was = self.dirty;
        self.dirty = false;
        was
    }

    /// Appends one lifecycle event to the shared queue. This is the producer
    /// side: background connection callbacks deliver events through it. The
    /// payload and the dirty flag are untouched.
    pub fn push_event(&self, kind: EventKind) {
        self.events.push(kind);
    }

    /// Atomically removes and returns all lifecycle events queued so far, in
    /// arrival order. This is the consumer side, the hook point for a derived
    /// connection-status view. The payload and the dirty flag are untouched.
    pub fn drain_events(&self) -> (drained: Vec<EventKind>) {
        self.events.drain()
    }

    /// A second handle to this activity's own shared event queue, for a
    /// callback to own.
    pub fn events_handle(&self) -> (h: SharedEventQueue)
        ensures
            h == self.events(),
    {
        self.events.handle()
    }
}

impl Default for ActivityState {
    /// A fresh state around a new, empty shared event queue: empty payload,
    /// with the change pending, so the first sync tick issues one update
    /// carrying the initial payload.
    fn default() -> (s: Self)
        ensures
            s.payload() == empty_payload(),
            s.dirty(),
    {
        ActivityState::new(SharedEventQueue::new())
    }
}

} // verus!
