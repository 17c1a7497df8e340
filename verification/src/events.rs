//! Excel events for scripts: the bounded queue that scripts poll, and the
//! monitor that turns active-cell observations into events.

use vstd::prelude::*;

verus! {

/// The most events the queue holds; older events give way to newer ones.
pub const EVENT_QUEUE_CAPACITY: usize = 128;

/// How long the monitor waits after it has read the active cell.
pub const POLL_INTERVAL_MS: u64 = 150;

/// How long the monitor waits when Excel could not be reached (busy with
/// a dialog, a cell being edited, not running).
pub const BUSY_RETRY_MS: u64 = 300;

/// An event for scripts: a name and its data.
#[derive(Debug, Clone, PartialEq)]
pub struct ExcelEvent {
    pub name: String,
    pub data: String,
}

impl View for ExcelEvent {
    type V = (Seq<char>, Seq<char>);

    open spec fn view(&self) -> (Seq<char>, Seq<char>) {
        (self.name@, self.data@)
    }
}

/// The name of the event that reports a new active-cell value.
pub open spec fn cell_change_name() -> Seq<char> {
    "cell_change"@
}

/// The last `n` elements of `s` (all of them when there are no more).
pub open spec fn keep_last<A>(s: Seq<A>, n: nat) -> Seq<A> {
    if s.len() > n {
        s.subrange(s.len() - n, s.len() as int)
    } else {
        s
    }
}

/// The queue after an event is pushed: the newest `EVENT_QUEUE_CAPACITY`
/// events, oldest first.
pub open spec fn queue_after_push(q: Seq<ExcelEvent>, e: ExcelEvent) -> Seq<ExcelEvent> {
    keep_last(q.push(e), EVENT_QUEUE_CAPACITY as nat)
}

/// A first-in first-out queue of events that holds at most
/// `EVENT_QUEUE_CAPACITY` of them.
pub struct EventQueue {
    events: Vec<ExcelEvent>,
}

impl EventQueue {
    #[verifier::type_invariant]
    spec fn wf(self) -> bool {
        self.events@.len() <= EVENT_QUEUE_CAPACITY
    }

    /// The queued events, oldest first.
    pub closed spec fn events(self) -> Seq<ExcelEvent> {
        self.events@
    }

    /// An empty queue.
    pub fn new() -> (r: Self)
        ensures
            r.events() == Seq::<ExcelEvent>::empty(),
    {
        EventQueue { events: Vec::new() }
    }

    /// The number of queued events, never more than the capacity.
    pub fn len(&self) -> (n: usize)
        ensures
            n == self.events().len(),
            n <= EVENT_QUEUE_CAPACITY,
    {
        proof { use_type_invariant(self); }
        self.events.len()
    }

    /// Appends an event; when the queue then holds more than its capacity,
    /// the oldest events are dropped.
    pub fn push(&mut self, e: ExcelEvent)
        ensures
            final(self).events() == queue_after_push(old(self).events(), e),
            final(self).events().len() <= EVENT_QUEUE_CAPACITY,
    {
        proof { use_type_invariant(&*self); }
        let ghost full = self.events@.push(e);
        let mut events: Vec<ExcelEvent> = Vec::new();
        std::mem::swap(&mut events, &mut self.events);
        events.push(e);
        while events.len() > EVENT_QUEUE_CAPACITY
            invariant
                full.len() <= EVENT_QUEUE_CAPACITY + 1,
                events@.len() <= full.len(),
                events@ == full.subrange(full.len() - events@.len(), full.len() as int),
                events@.len() < full.len() ==> events@.len() >= EVENT_QUEUE_CAPACITY,
            decreases events@.len(),
        {
            events.remove(0);
        }
        proof {
            if full.len() <= EVENT_QUEUE_CAPACITY {
                assert(events@ =~= full);
            }
        }
        self.events = events;
    }

    /// Takes the oldest event out of the queue; `None` when it is empty.
    pub fn poll(&mut self) -> (r: Option<ExcelEvent>)
        ensures
            old(self).events().len() == 0 ==> r is None && final(self).events() == old(self).events(),
            old(self).events().len() > 0 ==> r == Some(old(self).events()[0])
                && final(self).events() == old(self).events().drop_first(),
    {
        proof { use_type_invariant(&*self); }
        if self.events.len() == 0 {
            return None;
        }
        let mut events: Vec<ExcelEvent> = Vec::new();
        std::mem::swap(&mut events, &mut self.events);
        let first = events.remove(0);
        proof { assert(events@ =~= old(self).events().drop_first()); }
        self.events = events;
        Some(first)
    }
}

/// What the monitor saw of the active cell.
#[derive(Debug, Clone, PartialEq)]
pub enum CellObservation {
    /// Excel could not be reached.
    ExcelUnavailable,
    /// Excel was reached but the active cell or its value could not be read.
    CellUnreadable,
    /// The text of the active cell's value.
    CellText(String),
}

/// What the monitor does after an observation: queue an event (if any),
/// then wait.
#[derive(Debug, Clone, PartialEq)]
pub struct MonitorStep {
    pub event: Option<ExcelEvent>,
    pub sleep_ms: u64,
}

/// The last cell text the monitor remembers after an observation.
pub open spec fn observed_state(last_seen: Seq<char>, obs: CellObservation) -> Seq<char> {
    match obs {
        CellObservation::CellText(t) => t@,
        _ => last_seen,
    }
}

/// The event (name and data) that an observation reports: a change event
/// exactly when the cell text differs from the last one remembered.
pub open spec fn observed_event(last_seen: Seq<char>, obs: CellObservation) -> Option<(Seq<char>, Seq<char>)> {
    match obs {
        CellObservation::CellText(t) => if t@ != last_seen {
            Some((cell_change_name(), t@))
        } else {
            None
        },
        _ => None,
    }
}

/// How long the monitor waits after an observation.
pub open spec fn observed_sleep(obs: CellObservation) -> u64 {
    match obs {
        CellObservation::ExcelUnavailable => BUSY_RETRY_MS,
        _ => POLL_INTERVAL_MS,
    }
}

/// The active-cell monitor: reports each new value of the active cell once.
pub struct CellMonitor {
    last_seen: String,
}

impl CellMonitor {
    /// The last cell text reported (empty at first).
    pub closed spec fn last_seen(self) -> Seq<char> {
        self.last_seen@
    }

    /// A monitor that has seen nothing yet.
    pub fn new() -> (r: Self)
        ensures
            r.last_seen() == Seq::<char>::empty(),
    {
        CellMonitor { last_seen: String::new() }
    }

    /// Takes one observation and says what to queue and how long to wait.
    pub fn observe(&mut self, obs: CellObservation) -> (r: MonitorStep)
        ensures
            final(self).last_seen() == observed_state(old(self).last_seen(), obs),
            match r.event {
                Some(e) => observed_event(old(self).last_seen(), obs) == Some(e@),
                None => observed_event(old(self).last_seen(), obs) is None,
            },
            r.sleep_ms == observed_sleep(obs),
    {
        match obs {
            CellObservation::ExcelUnavailable => MonitorStep { event: None, sleep_ms: BUSY_RETRY_MS },
            CellObservation::CellUnreadable => MonitorStep { event: None, sleep_ms: POLL_INTERVAL_MS },
            CellObservation::CellText(current) => {
                if current != self.last_seen {
                    self.last_seen = current.clone();
                    let e = ExcelEvent { name: String::from_str("cell_change"), data: current };
                    MonitorStep { event: Some(e), sleep_ms: POLL_INTERVAL_MS }
                } else {
                    MonitorStep { event: None, sleep_ms: POLL_INTERVAL_MS }
                }
            },
        }
    }
}

} // verus!
