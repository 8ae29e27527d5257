use vstd::prelude::*;
use crate::rules::{opponent, PlayerSlot, RuleSet, ServeType, MatchError};

verus! {

/// Phase of a match; a finished match always carries its winner.
#[derive(Clone, Copy, Debug, PartialEq, Eq, Structural)]
pub enum Phase {
    InProgress,
    Deuce,
    Finished(PlayerSlot),
}

/// The mathematical state of the fold over a log.
pub struct Tally {
    pub p1: int,
    pub p2: int,
    pub server: PlayerSlot,
    /// Points served by `server` since the serve last changed hands.
    pub since: int,
    pub phase: Phase,
}

/// Deuce is active once both scores are within one point of the target.
pub open spec fn deuce_active(rules: RuleSet, p1: int, p2: int) -> bool {
    rules.deuce_enabled && p1 >= rules.points_to_win - 1 && p2 >= rules.points_to_win - 1
}

/// The side that has won at score (`p1`, `p2`), if any: it has reached the
/// target and, when deuce is enabled, leads by at least two.
pub open spec fn winner_at(rules: RuleSet, p1: int, p2: int) -> Option<PlayerSlot> {
    if p1 >= rules.points_to_win && (!rules.deuce_enabled || p1 - p2 >= 2) {
        Some(PlayerSlot::P1)
    } else if p2 >= rules.points_to_win && (!rules.deuce_enabled || p2 - p1 >= 2) {
        Some(PlayerSlot::P2)
    } else {
        None
    }
}

/// The state before any point has been played.
pub open spec fn initial_tally(first_server: PlayerSlot) -> Tally {
    Tally { p1: 0, p2: 0, server: first_server, since: 0, phase: Phase::InProgress }
}

/// The effect of one point won by `scorer` on the state `t`.
pub open spec fn step(rules: RuleSet, t: Tally, scorer: PlayerSlot) -> Tally {
    let p1 = if scorer == PlayerSlot::P1 { t.p1 + 1 } else { t.p1 };
    let p2 = if scorer == PlayerSlot::P2 { t.p2 + 1 } else { t.p2 };
    let deuce = deuce_active(rules, p1, p2);
    let threshold = if deuce { rules.serves_in_deuce } else { rules.serves_before_change };
    let rotate = rules.serve_type == ServeType::Free && t.since + 1 >= threshold;
    let server = if rotate { opponent(t.server) } else { t.server };
    let since = if rules.serve_type == ServeType::Fixed {
        t.since
    } else if rotate {
        0
    } else {
        t.since + 1
    };
    let phase = match winner_at(rules, p1, p2) {
        Some(w) => Phase::Finished(w),
        None => if deuce { Phase::Deuce } else { Phase::InProgress },
    };
    Tally { p1, p2, server, since, phase }
}

/// The state reached by folding `events` from the start.
pub open spec fn replay(rules: RuleSet, first_server: PlayerSlot, events: Seq<PlayerSlot>) -> Tally
    decreases events.len(),
{
    if events.len() == 0 {
        initial_tally(first_server)
    } else {
        step(rules, replay(rules, first_server, events.drop_last()), events.last())
    }
}

/// The log holds an event after the one that finished the match.
pub open spec fn corrupt(rules: RuleSet, first_server: PlayerSlot, events: Seq<PlayerSlot>) -> bool
    decreases events.len(),
{
    if events.len() == 0 {
        false
    } else {
        corrupt(rules, first_server, events.drop_last()) || replay(
            rules,
            first_server,
            events.drop_last(),
        ).phase is Finished
    }
}

/// Score, server and phase as reported to the rest of the system.
#[derive(Clone, Copy, Debug, PartialEq, Eq, Structural)]
pub struct DerivedMatchState {
    pub p1: usize,
    pub p2: usize,
    pub server: PlayerSlot,
    pub phase: Phase,
}

impl DerivedMatchState {
    /// This state is the visible part of `t`.
    pub open spec fn agrees(self, t: Tally) -> bool {
        self.p1 as int == t.p1 && self.p2 as int == t.p2 && self.server == t.server && self.phase
            == t.phase
    }

    /// The winner, present exactly when the match is finished.
    pub fn winner(&self) -> (r: Option<PlayerSlot>)
        ensures
            r == (match self.phase {
                Phase::Finished(w) => Some(w),
                _ => None,
            }),
    {
        match self.phase {
            Phase::Finished(w) => Some(w),
            _ => None,
        }
    }
}

/// The fold state, including the rotation counter.
#[derive(Clone, Copy, Debug, PartialEq, Eq, Structural)]
pub struct Progress {
    pub p1: usize,
    pub p2: usize,
    pub server: PlayerSlot,
    pub since: usize,
    pub phase: Phase,
}

impl Progress {
    pub open spec fn tally(self) -> Tally {
        Tally {
            p1: self.p1 as int,
            p2: self.p2 as int,
            server: self.server,
            since: self.since as int,
            phase: self.phase,
        }
    }

    /// The state before the first point.
    pub fn start(first_server: PlayerSlot) -> (r: Progress)
        ensures
            r.tally() == initial_tally(first_server),
    {
        Progress { p1: 0, p2: 0, server: first_server, since: 0, phase: Phase::InProgress }
    }

    /// The visible part of the fold state.
    pub fn snapshot(&self) -> (r: DerivedMatchState)
        ensures
            r.agrees(self.tally()),
    {
        DerivedMatchState { p1: self.p1, p2: self.p2, server: self.server, phase: self.phase }
    }
}

/// Whether deuce is active at score (`p1`, `p2`).
fn in_deuce(rules: &RuleSet, p1: usize, p2: usize) -> (r: bool)
    ensures
        r == deuce_active(*rules, p1 as int, p2 as int),
{
    if !rules.deuce_enabled || rules.points_to_win == 0 {
        rules.deuce_enabled
    } else {
        let near = (rules.points_to_win - 1) as usize;
        p1 >= near && p2 >= near
    }
}

/// The winner at score (`p1`, `p2`), if any.
fn winner_of(rules: &RuleSet, p1: usize, p2: usize) -> (r: Option<PlayerSlot>)
    ensures
        r == winner_at(*rules, p1 as int, p2 as int),
{
    let target = rules.points_to_win as usize;
    if p1 >= target && (!rules.deuce_enabled || (p1 > p2 && p1 - p2 >= 2)) {
        Some(PlayerSlot::P1)
    } else if p2 >= target && (!rules.deuce_enabled || (p2 > p1 && p2 - p1 >= 2)) {
        Some(PlayerSlot::P2)
    } else {
        None
    }
}

/// Applies one point won by `scorer`: the incremental form of [`derive_state`].
pub fn advance(rules: &RuleSet, t: &Progress, scorer: PlayerSlot) -> (r: Progress)
    requires
        t.p1 < usize::MAX,
        t.p2 < usize::MAX,
        t.since < usize::MAX,
    ensures
        r.tally() == step(*rules, t.tally(), scorer),
{
    let p1 = if scorer == PlayerSlot::P1 { t.p1 + 1 } else { t.p1 };
    let p2 = if scorer == PlayerSlot::P2 { t.p2 + 1 } else { t.p2 };
    let deuce = in_deuce(rules, p1, p2);
    let threshold = if deuce { rules.serves_in_deuce } else { rules.serves_before_change };
    let mut server = t.server;
    let mut since = t.since;
    if rules.serve_type == ServeType::Free {
        if t.since + 1 >= threshold as usize {
            server = t.server.other();
            since = 0;
        } else {
            since = t.since + 1;
        }
    }
    let phase = match winner_of(rules, p1, p2) {
        Some(w) => Phase::Finished(w),
        None => if deuce { Phase::Deuce } else { Phase::InProgress },
    };
    Progress { p1, p2, server, since, phase }
}

/// A log that is corrupt up to some point stays corrupt when it grows.
proof fn lemma_corrupt_prefix(rules: RuleSet, first_server: PlayerSlot, events: Seq<PlayerSlot>, n: int)
    requires
        0 <= n <= events.len(),
        corrupt(rules, first_server, events.take(n)),
    ensures
        corrupt(rules, first_server, events),
    decreases events.len(),
{
    if n == events.len() {
        assert(events.take(n) =~= events);
    } else {
        assert(events.drop_last().take(n) =~= events.take(n));
        lemma_corrupt_prefix(rules, first_server, events.drop_last(), n);
    }
}

/// Derives the state of a match from its rules, first server and log.
/// Fails with `CorruptLog` when an event follows the one that finished it.
pub fn derive_state(rules: &RuleSet, first_server: PlayerSlot, events: &Vec<PlayerSlot>) -> (r: Result<
    DerivedMatchState,
    MatchError,
>)
    ensures
        corrupt(*rules, first_server, events@) ==> r == Err::<DerivedMatchState, MatchError>(
            MatchError::CorruptLog,
        ),
        !corrupt(*rules, first_server, events@) ==> r is Ok && r->Ok_0.agrees(
            replay(*rules, first_server, events@),
        ),
{
    let mut t = Progress::start(first_server);
    let mut i: usize = 0;
    assert(events@.take(0) =~= Seq::<PlayerSlot>::empty());
    while i < events.len()
        invariant
            0 <= i <= events@.len(),
            t.tally() == replay(*rules, first_server, events@.take(i as int)),
            !corrupt(*rules, first_server, events@.take(i as int)),
            t.p1 <= i,
            t.p2 <= i,
            t.since <= i,
        decreases events@.len() - i,
    {
        assert(events@.take(i + 1).drop_last() =~= events@.take(i as int));
        if matches!(t.phase, Phase::Finished(_)) {
            proof {
                lemma_corrupt_prefix(*rules, first_server, events@, i + 1);
            }
            return Err(MatchError::CorruptLog);
        }
        t = advance(rules, &t, events[i]);
        i = i + 1;
    }
    assert(events@.take(i as int) =~= events@);
    Ok(t.snapshot())
}

} // verus!
