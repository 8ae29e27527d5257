//! Properties that relate several operations of the library.
use vstd::prelude::*;
use crate::controller::{
    add_point_outcome, cancel_outcome, log_tally, undo_outcome, well_formed, MatchStatus,
    MatchView,
};
use crate::rules::{opponent, MatchError, PlayerSlot, RuleSet, ServeType};
use crate::scoring::{deuce_active, initial_tally, replay, step, Tally};
use crate::stats::PlayerStatistics;

verus! {

/// Replaying a log from scratch is the same as applying its events one at a
/// time, in order, starting from the initial state.
pub proof fn lemma_replay_is_fold(rules: RuleSet, first_server: PlayerSlot, events: Seq<PlayerSlot>)
    ensures
        replay(rules, first_server, events) == events.fold_left(
            initial_tally(first_server),
            |t: Tally, e: PlayerSlot| step(rules, t, e),
        ),
    decreases events.len(),
{
    if events.len() > 0 {
        lemma_replay_is_fold(rules, first_server, events.drop_last());
    }
}

/// The state after the first `i + 1` events is one step from the state after
/// the first `i`.
pub proof fn lemma_replay_prefix_step(
    rules: RuleSet,
    first_server: PlayerSlot,
    events: Seq<PlayerSlot>,
    i: int,
)
    requires
        0 <= i < events.len(),
    ensures
        replay(rules, first_server, events.take(i + 1)) == step(
            rules,
            replay(rules, first_server, events.take(i)),
            events[i],
        ),
{
    assert(events.take(i + 1).drop_last() =~= events.take(i));
}

/// Re-deriving after a point is appended and then removed gives the state
/// derived before the point was appended.
pub proof fn lemma_replay_after_undo(
    rules: RuleSet,
    first_server: PlayerSlot,
    events: Seq<PlayerSlot>,
    scorer: PlayerSlot,
)
    ensures
        replay(rules, first_server, events.push(scorer).drop_last()) == replay(
            rules,
            first_server,
            events,
        ),
{
    assert(events.push(scorer).drop_last() =~= events);
    lemma_since_nonnegative(rules, first_server, events);
}

/// Under a fixed serve the first server serves every point.
pub proof fn lemma_fixed_serve(rules: RuleSet, first_server: PlayerSlot, events: Seq<PlayerSlot>)
    requires
        rules.serve_type == ServeType::Fixed,
    ensures
        replay(rules, first_server, events).server == first_server,
    decreases events.len(),
{
    if events.len() > 0 {
        lemma_fixed_serve(rules, first_server, events.drop_last());
    }
}

/// The rotation counter never goes below zero.
proof fn lemma_since_nonnegative(rules: RuleSet, first_server: PlayerSlot, events: Seq<PlayerSlot>)
    ensures
        replay(rules, first_server, events).since >= 0,
    decreases events.len(),
{
    if events.len() > 0 {
        lemma_since_nonnegative(rules, first_server, events.drop_last());
    }
}

/// Under a free serve that changes hands every two points, the first two
/// points of a match leave the serve with the other player, whoever won them,
/// unless deuce is already active after them.
pub proof fn lemma_serve_changes_after_two(
    rules: RuleSet,
    first_server: PlayerSlot,
    a: PlayerSlot,
    b: PlayerSlot,
)
    requires
        rules.serve_type == ServeType::Free,
        rules.serves_before_change == 2,
        !deuce_active(
            rules,
            replay(rules, first_server, seq![a]).p1,
            replay(rules, first_server, seq![a]).p2,
        ),
        !deuce_active(
            rules,
            replay(rules, first_server, seq![a, b]).p1,
            replay(rules, first_server, seq![a, b]).p2,
        ),
    ensures
        replay(rules, first_server, seq![a]).server == first_server,
        replay(rules, first_server, seq![a, b]).server == opponent(first_server),
{
    assert(seq![a].drop_last() =~= Seq::<PlayerSlot>::empty());
    assert(seq![a, b].drop_last() =~= seq![a]);
    let t0 = replay(rules, first_server, Seq::<PlayerSlot>::empty());
    assert(t0 == initial_tally(first_server));
    let t1 = replay(rules, first_server, seq![a]);
    assert(t1 == step(rules, t0, a));
    assert(t1.since == 1 && t1.server == first_server);
    assert(replay(rules, first_server, seq![a, b]) == step(rules, t1, b));
}

/// Under a free serve with one serve each in deuce, every point played while
/// deuce is active passes the serve to the other player.
pub proof fn lemma_deuce_alternates(
    rules: RuleSet,
    first_server: PlayerSlot,
    events: Seq<PlayerSlot>,
    scorer: PlayerSlot,
)
    requires
        rules.serve_type == ServeType::Free,
        rules.serves_in_deuce == 1,
        deuce_active(
            rules,
            replay(rules, first_server, events.push(scorer)).p1,
            replay(rules, first_server, events.push(scorer)).p2,
        ),
    ensures
        replay(rules, first_server, events.push(scorer)).server == opponent(
            replay(rules, first_server, events).server,
        ),
{
    assert(events.push(scorer).drop_last() =~= events);
    lemma_since_nonnegative(rules, first_server, events);
}

/// Undoing a point that was just added restores the match (log, status,
/// and hence score, server and phase) and both players' counters exactly.
pub proof fn lemma_undo_inverts_add(
    m: MatchView,
    scorer: PlayerSlot,
    now: u64,
    s1: PlayerStatistics,
    s2: PlayerStatistics,
)
    requires
        well_formed(m),
        add_point_outcome(m, scorer, now, s1, s2) is Ok,
    ensures
        ({
            let (m2, t1, t2) = add_point_outcome(m, scorer, now, s1, s2)->Ok_0;
            undo_outcome(m2, t1, t2) == Ok::<
                (MatchView, PlayerStatistics, PlayerStatistics),
                MatchError,
            >((m, s1, s2))
        }),
{
    let (m2, t1, t2) = add_point_outcome(m, scorer, now, s1, s2)->Ok_0;
    assert(m2.events.drop_last() =~= m.events);
    assert(m2.first_server == m.first_server);
    assert(log_tally(m2) == replay(m.rules, m.first_server->Some_0, m.events.push(scorer)));
    assert(undo_outcome(m2, t1, t2)->Ok_0.0 == m);
}

/// A point that finishes a match adds one played match to both players and
/// one win to the winner; any other accepted point leaves the counters alone.
pub proof fn lemma_finish_counts(
    m: MatchView,
    scorer: PlayerSlot,
    now: u64,
    s1: PlayerStatistics,
    s2: PlayerStatistics,
)
    requires
        well_formed(m),
        add_point_outcome(m, scorer, now, s1, s2) is Ok,
    ensures
        ({
            let (m2, t1, t2) = add_point_outcome(m, scorer, now, s1, s2)->Ok_0;
            if m2.status == MatchStatus::Finished {
                let w = log_tally(m2).phase->Finished_0;
                &&& log_tally(m2).phase is Finished
                &&& t1.matches_played == s1.matches_played + 1
                &&& t2.matches_played == s2.matches_played + 1
                &&& t1.wins == s1.wins + (if w == PlayerSlot::P1 { 1int } else { 0 })
                &&& t2.wins == s2.wins + (if w == PlayerSlot::P2 { 1int } else { 0 })
            } else {
                t1 == s1 && t2 == s2
            }
        }),
{
}

/// A cancelled match accepts neither a point nor an undo, and cancelling
/// keeps the log as it was.
pub proof fn lemma_cancel_freezes(
    m: MatchView,
    scorer: PlayerSlot,
    now: u64,
    s1: PlayerStatistics,
    s2: PlayerStatistics,
)
    requires
        well_formed(m),
        cancel_outcome(m) is Ok,
    ensures
        ({
            let c = cancel_outcome(m)->Ok_0;
            &&& c.status == MatchStatus::Cancelled
            &&& c.events == m.events
            &&& add_point_outcome(c, scorer, now, s1, s2) == Err::<
                (MatchView, PlayerStatistics, PlayerStatistics),
                MatchError,
            >(MatchError::MatchCancelled)
            &&& undo_outcome(c, s1, s2) == Err::<
                (MatchView, PlayerStatistics, PlayerStatistics),
                MatchError,
            >(MatchError::MatchCancelled)
        }),
{
}

} // verus!
