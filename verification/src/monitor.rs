//! A bounded log of request outcomes. Once the log is full, each new event
//! overwrites the oldest one.

use crate::error::GatewayError;
use vstd::prelude::*;

verus! {

/// The client wire protocol a request arrived in.
#[derive(Clone, Copy, Debug, PartialEq, Eq, Structural)]
pub enum Protocol {
    OpenAi,
    Anthropic,
    Gemini,
    Zai,
}

/// How a request ended, as far as the log is concerned.
#[derive(Clone, Copy, Debug, PartialEq, Eq, Structural)]
pub enum Outcome {
    Success,
    Failure(GatewayError),
}

/// One line of the log.
#[derive(Debug)]
pub struct MonitorEvent {
    pub timestamp: u64,
    pub protocol: Protocol,
    pub account_id: String,
    pub outcome: Outcome,
    pub latency_ms: u64,
}

impl MonitorEvent {
    /// An independent copy of this event.
    pub fn duplicate(&self) -> (copy: MonitorEvent)
        ensures
            copy == *self,
    {
        MonitorEvent {
            timestamp: self.timestamp,
            protocol: self.protocol,
            account_id: self.account_id.clone(),
            outcome: self.outcome,
            latency_ms: self.latency_ms,
        }
    }
}

/// The last `capacity` elements of `log`, or all of it when it is shorter.
pub open spec fn keep_latest<T>(log: Seq<T>, capacity: nat) -> Seq<T> {
    if log.len() <= capacity {
        log
    } else {
        log.subrange(log.len() - capacity, log.len() as int)
    }
}

/// The log after `incoming` has been recorded, event by event, on top of `log`.
pub open spec fn record_each<T>(log: Seq<T>, incoming: Seq<T>, capacity: nat) -> Seq<T>
    decreases incoming.len(),
{
    if incoming.len() == 0 {
        log
    } else {
        record_each(keep_latest(log.push(incoming[0]), capacity), incoming.drop_first(), capacity)
    }
}

/// Recording any run of events on a log that is within its capacity leaves
/// exactly the most recent `capacity` events of the whole history, oldest
/// first, and never more than `capacity` of them.
pub proof fn lemma_record_each_keeps_latest<T>(log: Seq<T>, incoming: Seq<T>, capacity: nat)
    requires
        log.len() <= capacity,
    ensures
        record_each(log, incoming, capacity) == keep_latest(log + incoming, capacity),
        record_each(log, incoming, capacity).len() <= capacity,
        log.len() + incoming.len() >= capacity ==> record_each(log, incoming, capacity).len()
            == capacity,
    decreases incoming.len(),
{
    if incoming.len() == 0 {
        assert(log + incoming =~= log);
    } else {
        let step = keep_latest(log.push(incoming[0]), capacity);
        let rest = incoming.drop_first();
        lemma_record_each_keeps_latest(step, rest, capacity);
        assert(keep_latest(step + rest, capacity) =~= keep_latest(log + incoming, capacity)) by {
            assert(log.push(incoming[0]) + rest =~= log + incoming);
        }
    }
}

/// A fixed-capacity event log that can be switched on and off.
#[derive(Debug)]
pub struct Monitor {
    capacity: usize,
    enabled: bool,
    slots: Vec<MonitorEvent>,
    oldest: usize,
}

impl Monitor {
    /// The representation is consistent: no more slots than the capacity, and
    /// the position of the oldest event lies inside the filled part.
    pub closed spec fn well_formed(self) -> bool {
        &&& self.slots.len() <= self.capacity
        &&& self.oldest <= self.slots.len()
        &&& (self.slots.len() < self.capacity ==> self.oldest == 0)
        &&& (self.slots.len() > 0 ==> self.oldest < self.slots.len())
    }

    /// The recorded events in arrival order, oldest first.
    pub closed spec fn events(self) -> Seq<MonitorEvent> {
        self.slots@.subrange(self.oldest as int, self.slots.len() as int) + self.slots@.subrange(
            0,
            self.oldest as int,
        )
    }

    /// The most events the log ever holds.
    pub closed spec fn limit(self) -> nat {
        self.capacity as nat
    }

    /// Whether `record` currently stores anything.
    pub closed spec fn recording(self) -> bool {
        self.enabled
    }

    /// An empty log of the given capacity, switched off.
    pub fn new(capacity: usize) -> (monitor: Monitor)
        ensures
            monitor.well_formed(),
            monitor.events() == Seq::<MonitorEvent>::empty(),
            monitor.limit() == capacity,
            !monitor.recording(),
    {
        let monitor = Monitor { capacity, enabled: false, slots: Vec::new(), oldest: 0 };
        assert(monitor.events() =~= Seq::<MonitorEvent>::empty());
        monitor
    }

    /// Switches recording on or off. The stored events stay as they are.
    pub fn set_enabled(&mut self, enabled: bool)
        requires
            old(self).well_formed(),
        ensures
            final(self).well_formed(),
            final(self).recording() == enabled,
            final(self).events() == old(self).events(),
            final(self).limit() == old(self).limit(),
    {
        self.enabled = enabled;
    }

    pub fn is_enabled(&self) -> (enabled: bool)
        ensures
            enabled == self.recording(),
    {
        self.enabled
    }

    pub fn capacity(&self) -> (capacity: usize)
        ensures
            capacity == self.limit(),
    {
        self.capacity
    }

    /// How many events are stored; never more than the capacity.
    pub fn len(&self) -> (count: usize)
        requires
            self.well_formed(),
        ensures
            count == self.events().len(),
            count <= self.limit(),
    {
        self.slots.len()
    }

    /// Stores `event` as the newest one, dropping the oldest if the log is
    /// full. Does nothing while recording is switched off.
    pub fn record(&mut self, event: MonitorEvent)
        requires
            old(self).well_formed(),
        ensures
            final(self).well_formed(),
            final(self).limit() == old(self).limit(),
            final(self).recording() == old(self).recording(),
            final(self).events() == if old(self).recording() {
                keep_latest(old(self).events().push(event), old(self).limit())
            } else {
                old(self).events()
            },
            final(self).events().len() <= final(self).limit(),
    {
        if !self.enabled {
            return ;
        }
        if self.capacity == 0 {
            assert(keep_latest(self.events().push(event), 0) =~= self.events());
            return ;
        }
        let ghost before = self.events();
        if self.slots.len() < self.capacity {
            self.slots.push(event);
            assert(self.events() =~= before.push(event));
        } else {
            let at = self.oldest;
            self.slots.set(at, event);
            self.oldest = if at + 1 == self.capacity {
                0
            } else {
                at + 1
            };
            assert(self.events() =~= keep_latest(before.push(event), self.capacity as nat));
        }
    }

    /// A copy of the stored events in arrival order, oldest first.
    pub fn snapshot(&self) -> (events: Vec<MonitorEvent>)
        requires
            self.well_formed(),
        ensures
            events@ == self.events(),
    {
        let count = self.slots.len();
        let mut events: Vec<MonitorEvent> = Vec::new();
        let mut i: usize = self.oldest;
        while i < count
            invariant
                count == self.slots.len(),
                self.oldest <= i <= count,
                events@ == self.slots@.subrange(self.oldest as int, i as int),
            decreases count - i,
        {
            events.push(self.slots[i].duplicate());
            i += 1;
        }
        let mut j: usize = 0;
        while j < self.oldest
            invariant
                count == self.slots.len(),
                j <= self.oldest <= count,
                events@ == self.slots@.subrange(self.oldest as int, count as int)
                    + self.slots@.subrange(0, j as int),
            decreases self.oldest - j,
        {
            events.push(self.slots[j].duplicate());
            j += 1;
        }
        events
    }
}

} // verus!
