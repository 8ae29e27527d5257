use vstd::prelude::*;
use crate::rules::{MatchError, PlayerSlot};

verus! {

/// An append-only, strictly ordered sequence of scoring events, whose only
/// other change is removal of the most recent event.
pub struct EventLog {
    events: Vec<PlayerSlot>,
}

impl View for EventLog {
    type V = Seq<PlayerSlot>;

    closed spec fn view(&self) -> Seq<PlayerSlot> {
        self.events@
    }
}

impl EventLog {
    /// An empty log.
    pub fn new() -> (r: EventLog)
        ensures
            r@ == Seq::<PlayerSlot>::empty(),
    {
        EventLog { events: Vec::new() }
    }

    /// A log holding `events` in order.
    pub fn from_events(events: Vec<PlayerSlot>) -> (r: EventLog)
        ensures
            r@ == events@,
    {
        EventLog { events }
    }

    /// Number of events.
    pub fn len(&self) -> (r: usize)
        ensures
            r == self@.len(),
    {
        self.events.len()
    }

    /// Adds one event at the end.
    pub fn append(&mut self, scorer: PlayerSlot)
        ensures
            final(self)@ == old(self)@.push(scorer),
    {
        self.events.push(scorer);
    }

    /// Removes the most recent event and returns it; fails with `EmptyLog`,
    /// leaving the log as it was, when there is none.
    pub fn truncate_last(&mut self) -> (r: Result<PlayerSlot, MatchError>)
        ensures
            old(self)@.len() == 0 ==> r == Err::<PlayerSlot, MatchError>(MatchError::EmptyLog)
                && final(self)@ == old(self)@,
            old(self)@.len() > 0 ==> r == Ok::<PlayerSlot, MatchError>(old(self)@.last())
                && final(self)@ == old(self)@.drop_last(),
    {
        match self.events.pop() {
            Some(e) => Ok(e),
            None => Err(MatchError::EmptyLog),
        }
    }

    /// The first `n` events, in order.
    pub fn prefix(&self, n: usize) -> (r: Vec<PlayerSlot>)
        requires
            n <= self@.len(),
        ensures
            r@ == self@.take(n as int),
    {
        let mut r: Vec<PlayerSlot> = Vec::new();
        let mut i: usize = 0;
        while i < n
            invariant
                n <= self.events@.len(),
                0 <= i <= n,
                r@ == self.events@.take(i as int),
            decreases n - i,
        {
            assert(self.events@.take(i + 1) =~= self.events@.take(i as int).push(self.events@[i as int]));
            r.push(self.events[i]);
            i = i + 1;
        }
        r
    }

    /// All events, in order.
    pub fn events(&self) -> (r: &Vec<PlayerSlot>)
        ensures
            r@ == self@,
    {
        &self.events
    }
}

} // verus!
