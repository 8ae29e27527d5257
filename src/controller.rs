use vstd::prelude::*;
use crate::event_log::EventLog;
use crate::rules::{MatchError, PlayerSlot, RuleSet};
use crate::scoring::{corrupt, derive_state, replay, DerivedMatchState, Phase, Progress};
use crate::stats::{
    finished_counters, on_match_finished, on_match_unfinished, unfinished_counters,
    PlayerStatistics,
};

verus! {

/// Lifecycle of a match.
#[derive(Clone, Copy, Debug, PartialEq, Eq, Structural)]
pub enum MatchStatus {
    InProgress,
    Finished,
    Cancelled,
}

/// The mathematical content of a match.
pub struct MatchView {
    pub player1: u64,
    pub player2: u64,
    pub rules: RuleSet,
    pub status: MatchStatus,
    pub events: Seq<PlayerSlot>,
    pub first_server: Option<PlayerSlot>,
    pub start_time: u64,
    pub end_time: Option<u64>,
}

/// The log of `m`, replayed from its first server.
pub open spec fn log_tally(m: MatchView) -> crate::scoring::Tally
    recommends
        m.first_server is Some,
{
    replay(m.rules, m.first_server->Some_0, m.events)
}

/// The log of `m` ends with a winning point.
pub open spec fn finished_by_log(m: MatchView) -> bool {
    m.first_server is Some && log_tally(m).phase is Finished
}

/// The invariant of every match: distinct players, a valid rule set, no
/// event before the first server is known, no event after the winning one,
/// a status of `Finished` exactly when the log ends with a win, and an end
/// time exactly when the match is finished.
pub open spec fn well_formed(m: MatchView) -> bool {
    &&& m.player1 != m.player2
    &&& m.rules.valid()
    &&& (m.first_server is None ==> m.events.len() == 0)
    &&& (m.first_server is Some ==> !corrupt(m.rules, m.first_server->Some_0, m.events))
    &&& (m.status == MatchStatus::Finished <==> finished_by_log(m))
    &&& (m.end_time is Some <==> m.status == MatchStatus::Finished)
}

/// `c` is the derived state of `m`: absent until the first server is known.
pub open spec fn derived_of(m: MatchView, c: Option<DerivedMatchState>) -> bool {
    match m.first_server {
        None => c is None,
        Some(f) => c is Some && c->Some_0.agrees(replay(m.rules, f, m.events)),
    }
}

/// `m` with `events` as its log, `status` as its status and `end_time` as
/// its end time.
pub open spec fn with_log(
    m: MatchView,
    events: Seq<PlayerSlot>,
    status: MatchStatus,
    end_time: Option<u64>,
) -> MatchView {
    MatchView {
        player1: m.player1,
        player2: m.player2,
        rules: m.rules,
        status,
        events,
        first_server: m.first_server,
        start_time: m.start_time,
        end_time,
    }
}

/// Outcome of adding a point won by `scorer` at time `now` to `m`, whose
/// players' counters are `s1` and `s2`.
pub open spec fn add_point_outcome(
    m: MatchView,
    scorer: PlayerSlot,
    now: u64,
    s1: PlayerStatistics,
    s2: PlayerStatistics,
) -> Result<(MatchView, PlayerStatistics, PlayerStatistics), MatchError> {
    if m.status == MatchStatus::Cancelled {
        Err(MatchError::MatchCancelled)
    } else if m.status == MatchStatus::Finished {
        Err(MatchError::MatchNotInProgress)
    } else if m.first_server is None {
        Err(MatchError::ServerNotSet)
    } else {
        let events = m.events.push(scorer);
        match replay(m.rules, m.first_server->Some_0, events).phase {
            Phase::Finished(w) => match finished_counters(w, s1, s2) {
                Ok((n1, n2)) => Ok((with_log(m, events, MatchStatus::Finished, Some(now)), n1, n2)),
                Err(e) => Err(e),
            },
            _ => Ok((with_log(m, events, MatchStatus::InProgress, m.end_time), s1, s2)),
        }
    }
}

/// Outcome of undoing the last point of `m`, whose players' counters are
/// `s1` and `s2`.
pub open spec fn undo_outcome(m: MatchView, s1: PlayerStatistics, s2: PlayerStatistics) -> Result<
    (MatchView, PlayerStatistics, PlayerStatistics),
    MatchError,
> {
    if m.status == MatchStatus::Cancelled {
        Err(MatchError::MatchCancelled)
    } else if m.events.len() == 0 {
        Err(MatchError::NothingToUndo)
    } else if m.status == MatchStatus::Finished {
        match unfinished_counters(log_tally(m).phase->Finished_0, s1, s2) {
            Ok((n1, n2)) => Ok(
                (with_log(m, m.events.drop_last(), MatchStatus::InProgress, None), n1, n2),
            ),
            Err(e) => Err(e),
        }
    } else {
        Ok((with_log(m, m.events.drop_last(), MatchStatus::InProgress, m.end_time), s1, s2))
    }
}

/// Outcome of naming `server` as the first server of `m`.
pub open spec fn set_first_server_outcome(m: MatchView, server: PlayerSlot) -> Result<
    MatchView,
    MatchError,
> {
    if m.status == MatchStatus::InProgress && m.events.len() == 0 {
        Ok(
            MatchView {
                player1: m.player1,
                player2: m.player2,
                rules: m.rules,
                status: m.status,
                events: m.events,
                first_server: Some(server),
                start_time: m.start_time,
                end_time: m.end_time,
            },
        )
    } else {
        Err(MatchError::MatchAlreadyStarted)
    }
}

/// Outcome of cancelling `m`.
pub open spec fn cancel_outcome(m: MatchView) -> Result<MatchView, MatchError> {
    if m.status == MatchStatus::InProgress {
        Ok(with_log(m, m.events, MatchStatus::Cancelled, m.end_time))
    } else {
        Err(MatchError::MatchNotInProgress)
    }
}

/// Outcome of rebuilding a match from what was stored of it: its players,
/// rules, first server, log, whether it was cancelled and its times. The
/// status and the derived state come from replaying the log; a log that
/// could not have been recorded is `CorruptLog`.
pub open spec fn restore_outcome(
    player1: u64,
    player2: u64,
    rules: RuleSet,
    first_server: Option<PlayerSlot>,
    events: Seq<PlayerSlot>,
    cancelled: bool,
    start_time: u64,
    end_time: Option<u64>,
) -> Result<MatchView, MatchError> {
    let finished = first_server is Some && replay(rules, first_server->Some_0, events).phase is Finished;
    if !rules.valid() {
        Err(MatchError::InvalidRuleSet)
    } else if first_server is None && events.len() > 0 {
        Err(MatchError::ServerNotSet)
    } else if first_server is Some && corrupt(rules, first_server->Some_0, events) {
        Err(MatchError::CorruptLog)
    } else if finished && (cancelled || end_time is None) {
        Err(MatchError::CorruptLog)
    } else {
        Ok(
            MatchView {
                player1,
                player2,
                rules,
                status: if cancelled {
                    MatchStatus::Cancelled
                } else if finished {
                    MatchStatus::Finished
                } else {
                    MatchStatus::InProgress
                },
                events,
                first_server,
                start_time,
                end_time: if finished { end_time } else { None },
            },
        )
    }
}

/// A match: its players, rule set, status and event log, with the state
/// derived from the log kept alongside.
pub struct Match {
    player1: u64,
    player2: u64,
    rules: RuleSet,
    status: MatchStatus,
    log: EventLog,
    first_server: Option<PlayerSlot>,
    start_time: u64,
    end_time: Option<u64>,
    current: Option<DerivedMatchState>,
}

impl View for Match {
    type V = MatchView;

    closed spec fn view(&self) -> MatchView {
        MatchView {
            player1: self.player1,
            player2: self.player2,
            rules: self.rules,
            status: self.status,
            events: self.log@,
            first_server: self.first_server,
            start_time: self.start_time,
            end_time: self.end_time,
        }
    }
}

impl Match {
    /// The match is well formed and its cached state is the derived one.
    pub closed spec fn wf(&self) -> bool {
        well_formed(self@) && derived_of(self@, self.current)
    }

    /// Starts a match at time `start_time` with an empty log; fails with
    /// `InvalidRuleSet` when a count of `rules` is zero.
    pub fn start_match(
        player1: u64,
        player2: u64,
        rules: RuleSet,
        first_server: Option<PlayerSlot>,
        start_time: u64,
    ) -> (r: Result<Match, MatchError>)
        requires
            player1 != player2,
        ensures
            !rules.valid() ==> r == Err::<Match, MatchError>(MatchError::InvalidRuleSet),
            rules.valid() ==> r is Ok && r->Ok_0.wf() && r->Ok_0@ == (MatchView {
                player1,
                player2,
                rules,
                status: MatchStatus::InProgress,
                events: Seq::<PlayerSlot>::empty(),
                first_server,
                start_time,
                end_time: None,
            }),
    {
        if rules.points_to_win == 0 || rules.serves_before_change == 0 || rules.serves_in_deuce
            == 0 {
            return Err(MatchError::InvalidRuleSet);
        }
        let current = match first_server {
            Some(f) => Some(Progress::start(f).snapshot()),
            None => None,
        };
        let m = Match {
            player1,
            player2,
            rules,
            status: MatchStatus::InProgress,
            log: EventLog::new(),
            first_server,
            start_time,
            end_time: None,
            current,
        };
        assert(m@.events =~= Seq::<PlayerSlot>::empty());
        Ok(m)
    }

    /// Rebuilds a stored match by replaying its log; see [`restore_outcome`].
    pub fn restore(
        player1: u64,
        player2: u64,
        rules: RuleSet,
        first_server: Option<PlayerSlot>,
        events: Vec<PlayerSlot>,
        cancelled: bool,
        start_time: u64,
        end_time: Option<u64>,
    ) -> (r: Result<Match, MatchError>)
        requires
            player1 != player2,
        ensures
            match restore_outcome(
                player1,
                player2,
                rules,
                first_server,
                events@,
                cancelled,
                start_time,
                end_time,
            ) {
                Ok(m) => r is Ok && r->Ok_0.wf() && r->Ok_0@ == m,
                Err(e) => r is Err && r->Err_0 == e,
            },
    {
        if rules.points_to_win == 0 || rules.serves_before_change == 0 || rules.serves_in_deuce
            == 0 {
            return Err(MatchError::InvalidRuleSet);
        }
        let current = match first_server {
            None => {
                if events.len() > 0 {
                    return Err(MatchError::ServerNotSet);
                }
                None
            },
            Some(f) => match derive_state(&rules, f, &events) {
                Ok(st) => Some(st),
                Err(e) => return Err(e),
            },
        };
        let finished = match current {
            Some(st) => matches!(st.phase, Phase::Finished(_)),
            None => false,
        };
        if finished && (cancelled || end_time.is_none()) {
            return Err(MatchError::CorruptLog);
        }
        let status = if cancelled {
            MatchStatus::Cancelled
        } else if finished {
            MatchStatus::Finished
        } else {
            MatchStatus::InProgress
        };
        Ok(
            Match {
                player1,
                player2,
                rules,
                status,
                log: EventLog::from_events(events),
                first_server,
                start_time,
                end_time: if finished { end_time } else { None },
                current,
            },
        )
    }

    /// Names the first server; only while the log is empty and the match in
    /// progress, else `MatchAlreadyStarted`.
    pub fn set_first_server(&mut self, server: PlayerSlot) -> (r: Result<(), MatchError>)
        requires
            old(self).wf(),
        ensures
            final(self).wf(),
            match set_first_server_outcome(old(self)@, server) {
                Ok(m) => r is Ok && final(self)@ == m,
                Err(e) => r == Err::<(), MatchError>(e) && final(self)@ == old(self)@,
            },
    {
        if self.status != MatchStatus::InProgress || self.log.len() > 0 {
            return Err(MatchError::MatchAlreadyStarted);
        }
        self.first_server = Some(server);
        self.current = Some(Progress::start(server).snapshot());
        Ok(())
    }

    /// Records a point won by `scorer` at time `now`, re-derives the state
    /// from the whole log and, when that point wins the match, finishes it
    /// at `now` and credits the counters `s1` and `s2` of player one and
    /// player two. On failure nothing changes.
    pub fn add_point(
        &mut self,
        scorer: PlayerSlot,
        now: u64,
        s1: &mut PlayerStatistics,
        s2: &mut PlayerStatistics,
    ) -> (r: Result<(), MatchError>)
        requires
            old(self).wf(),
        ensures
            final(self).wf(),
            match add_point_outcome(old(self)@, scorer, now, *old(s1), *old(s2)) {
                Ok((m, n1, n2)) => r is Ok && final(self)@ == m && *final(s1) == n1 && *final(s2)
                    == n2,
                Err(e) => r == Err::<(), MatchError>(e) && final(self)@ == old(self)@ && *final(s1)
                    == *old(s1) && *final(s2) == *old(s2),
            },
    {
        if self.status == MatchStatus::Cancelled {
            return Err(MatchError::MatchCancelled);
        }
        if self.status == MatchStatus::Finished {
            return Err(MatchError::MatchNotInProgress);
        }
        let first = match self.first_server {
            Some(f) => f,
            None => return Err(MatchError::ServerNotSet),
        };
        let ghost before = self.log@;
        self.log.append(scorer);
        assert(self.log@.drop_last() =~= before);
        let st = match derive_state(&self.rules, first, self.log.events()) {
            Ok(st) => st,
            Err(e) => return Err(e),
        };
        if let Phase::Finished(w) = st.phase {
            match on_match_finished(w, s1, s2) {
                Ok(()) => {},
                Err(e) => {
                    let _ = self.log.truncate_last();
                    return Err(e);
                },
            }
            self.status = MatchStatus::Finished;
            self.end_time = Some(now);
        }
        self.current = Some(st);
        Ok(())
    }

    /// Removes the last point and re-derives the state. When that point had
    /// won the match, the counters `s1` and `s2` are reverted first and the
    /// match is back in progress. On failure nothing changes.
    pub fn undo_last_point(&mut self, s1: &mut PlayerStatistics, s2: &mut PlayerStatistics) -> (r:
        Result<(), MatchError>)
        requires
            old(self).wf(),
        ensures
            final(self).wf(),
            match undo_outcome(old(self)@, *old(s1), *old(s2)) {
                Ok((m, n1, n2)) => r is Ok && final(self)@ == m && *final(s1) == n1 && *final(s2)
                    == n2,
                Err(e) => r == Err::<(), MatchError>(e) && final(self)@ == old(self)@ && *final(s1)
                    == *old(s1) && *final(s2) == *old(s2),
            },
    {
        if self.status == MatchStatus::Cancelled {
            return Err(MatchError::MatchCancelled);
        }
        if self.log.len() == 0 {
            return Err(MatchError::NothingToUndo);
        }
        let first = match self.first_server {
            Some(f) => f,
            None => return Err(MatchError::CorruptLog),
        };
        if self.status == MatchStatus::Finished {
            let w = match self.current {
                Some(st) => match st.phase {
                    Phase::Finished(w) => w,
                    _ => return Err(MatchError::CorruptLog),
                },
                None => return Err(MatchError::CorruptLog),
            };
            match on_match_unfinished(w, s1, s2) {
                Ok(()) => {},
                Err(e) => return Err(e),
            }
        }
        let _ = self.log.truncate_last();
        let st = match derive_state(&self.rules, first, self.log.events()) {
            Ok(st) => st,
            Err(e) => return Err(e),
        };
        self.status = MatchStatus::InProgress;
        self.end_time = None;
        self.current = Some(st);
        Ok(())
    }

    /// Cancels a match in progress, freezing its log; `MatchNotInProgress`
    /// otherwise. Statistics are not touched.
    pub fn cancel_match(&mut self) -> (r: Result<(), MatchError>)
        requires
            old(self).wf(),
        ensures
            final(self).wf(),
            match cancel_outcome(old(self)@) {
                Ok(m) => r is Ok && final(self)@ == m,
                Err(e) => r == Err::<(), MatchError>(e) && final(self)@ == old(self)@,
            },
    {
        if self.status != MatchStatus::InProgress {
            return Err(MatchError::MatchNotInProgress);
        }
        self.status = MatchStatus::Cancelled;
        Ok(())
    }

    /// Identifier of player one.
    pub fn player1(&self) -> (r: u64)
        ensures
            r == self@.player1,
    {
        self.player1
    }

    /// Identifier of player two.
    pub fn player2(&self) -> (r: u64)
        ensures
            r == self@.player2,
    {
        self.player2
    }

    /// The rule set the match was started with.
    pub fn rules(&self) -> (r: RuleSet)
        ensures
            r == self@.rules,
    {
        self.rules
    }

    /// When the match started.
    pub fn start_time(&self) -> (r: u64)
        ensures
            r == self@.start_time,
    {
        self.start_time
    }

    /// When the match finished, present exactly while it is finished.
    pub fn end_time(&self) -> (r: Option<u64>)
        ensures
            r == self@.end_time,
    {
        self.end_time
    }

    /// Current status.
    pub fn status(&self) -> (r: MatchStatus)
        ensures
            r == self@.status,
    {
        self.status
    }

    /// The first server, once named.
    pub fn first_server(&self) -> (r: Option<PlayerSlot>)
        ensures
            r == self@.first_server,
    {
        self.first_server
    }

    /// The event log, in order.
    pub fn events(&self) -> (r: &Vec<PlayerSlot>)
        ensures
            r@ == self@.events,
    {
        self.log.events()
    }

    /// Score, server and phase derived from the log; absent until the first
    /// server is named.
    pub fn state(&self) -> (r: Option<DerivedMatchState>)
        requires
            self.wf(),
        ensures
            derived_of(self@, r),
    {
        self.current
    }

    /// Identifier of the winner, present exactly when the match is finished.
    pub fn winner_id(&self) -> (r: Option<u64>)
        requires
            self.wf(),
        ensures
            self@.status != MatchStatus::Finished ==> r is None,
            self@.status == MatchStatus::Finished ==> r == Some(
                if log_tally(self@).phase->Finished_0 == PlayerSlot::P1 {
                    self@.player1
                } else {
                    self@.player2
                },
            ),
    {
        if self.status != MatchStatus::Finished {
            return None;
        }
        match self.current {
            Some(st) => match st.phase {
                Phase::Finished(PlayerSlot::P1) => Some(self.player1),
                Phase::Finished(PlayerSlot::P2) => Some(self.player2),
                _ => None,
            },
            None => None,
        }
    }
}

} // verus!
