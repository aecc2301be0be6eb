//! System event log.
//!
//! A bounded journal of operational events (startups, mode changes, alarm
//! transitions).  Appends are kept in arrival order internally; readers
//! always see the newest event first, and the log never holds more than a
//! thousand entries.

use vstd::prelude::*;

verus! {

/// How many events the log keeps.
pub const EVENT_LOG_CAP: usize = 1000;

#[derive(Clone, Copy, Debug, PartialEq, Eq, Structural)]
pub enum EventKind {
    PlantStartup,
    PlantShutdown,
    ModeChange,
    AlarmRaised,
    AlarmCleared,
    FaultTrip,
    GridDisconnect,
    GridReconnect,
    CurtailmentStart,
    CurtailmentEnd,
    SettingChanged,
}

/// One journal entry; the payload is an optional preserialised document.
#[derive(Debug)]
pub struct Event {
    pub id: String,
    pub plant_id: Option<String>,
    pub kind: EventKind,
    pub message: String,
    /// Unix seconds.
    pub timestamp: i64,
    pub payload: Option<String>,
}

impl Clone for Event {
    fn clone(&self) -> (r: Event)
        ensures
            r == *self,
    {
        Event {
            id: self.id.clone(),
            plant_id: match &self.plant_id {
                Some(p) => Some(p.clone()),
                None => None,
            },
            kind: self.kind,
            message: self.message.clone(),
            timestamp: self.timestamp,
            payload: match &self.payload {
                Some(p) => Some(p.clone()),
                None => None,
            },
        }
    }
}

/// Whether a journal entry records the given kind for the given plant at
/// the given time.
pub open spec fn event_for_plant_s(e: Event, plant: Seq<char>, kind: EventKind, now: i64) -> bool {
    &&& e.kind == kind
    &&& e.timestamp == now
    &&& match e.plant_id {
        Option::Some(p) => p@ == plant,
        Option::None => false,
    }
}

/// The bounded journal; index 0 holds the oldest retained event.
pub struct EventLog {
    pub items: Vec<Event>,
}

impl EventLog {
    pub open spec fn wf(&self) -> bool {
        self.items@.len() <= EVENT_LOG_CAP as int
    }

    pub fn new() -> (r: EventLog)
        ensures
            r.wf(),
            r.items@.len() == 0,
    {
        EventLog { items: Vec::new() }
    }

    /// Append an event, evicting the oldest entry past the cap.
    pub fn push_event(&mut self, e: Event)
        requires
            old(self).wf(),
        ensures
            final(self).wf(),
            final(self).items@.len() > 0,
            final(self).items@.len() >= old(self).items@.len(),
            final(self).items@.last() == e,
            final(self).items@.len() <= EVENT_LOG_CAP as int,
            old(self).items@.len() < EVENT_LOG_CAP as int ==> final(self).items@ == old(
                self,
            ).items@.push(e),
    {
        if self.items.len() >= EVENT_LOG_CAP {
            let _ = self.items.remove(0);
        }
        self.items.push(e);
    }

    /// The newest events, newest first, at most `limit` of them: entry k
    /// of the result is the k-th most recent event.
    pub fn list_events(&self, limit: usize) -> (r: Vec<Event>)
        ensures
            r@.len() == vstd::math::min(limit as int, self.items@.len() as int),
            forall |k: int|
                0 <= k < r@.len() ==> r@[k] == self.items@[self.items@.len() - 1 - k],
    {
        let n = self.items.len();
        let count = if limit < n {
            limit
        } else {
            n
        };
        let mut out: Vec<Event> = Vec::new();
        let mut k: usize = 0;
        while k < count
            invariant
                0 <= k <= count,
                count <= n,
                n == self.items@.len(),
                out@.len() == k,
                forall |m: int| 0 <= m < k ==> out@[m] == self.items@[n - 1 - m],
            decreases count - k,
        {
            out.push(self.items[n - 1 - k].clone());
            k = k + 1;
        }
        out
    }

    pub fn len(&self) -> (n: usize)
        ensures
            n == self.items@.len(),
    {
        self.items.len()
    }
}


} // verus!
