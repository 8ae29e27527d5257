use pingpong::controller::{Match, MatchStatus};
use pingpong::event_log::EventLog;
use pingpong::rules::{MatchError, PlayerSlot, RuleSet, ServeType};
use pingpong::scoring::{advance, derive_state, DerivedMatchState, Phase, Progress};
use pingpong::stats::{on_match_finished, on_match_unfinished, PlayerStatistics};

use PlayerSlot::{P1, P2};

fn standard() -> RuleSet {
    RuleSet::new(11, 2, true, 1, ServeType::Free).unwrap()
}

fn zero() -> PlayerStatistics {
    PlayerStatistics { matches_played: 0, wins: 0 }
}

/// Alternating points up to (n, n), starting with P1.
fn level(n: usize) -> Vec<PlayerSlot> {
    let mut v = Vec::new();
    for _ in 0..n {
        v.push(P1);
        v.push(P2);
    }
    v
}

fn state(rules: &RuleSet, events: &Vec<PlayerSlot>) -> DerivedMatchState {
    derive_state(rules, P1, events).unwrap()
}

fn started(rules: RuleSet) -> Match {
    Match::start_match(10, 20, rules, Some(P1), 1000).unwrap()
}

#[test]
fn rule_set_rejects_zero_counts() {
    assert_eq!(RuleSet::new(0, 2, true, 1, ServeType::Free), Err(MatchError::InvalidRuleSet));
    assert_eq!(RuleSet::new(11, 0, true, 1, ServeType::Free), Err(MatchError::InvalidRuleSet));
    assert_eq!(RuleSet::new(11, 2, true, 0, ServeType::Free), Err(MatchError::InvalidRuleSet));
    let r = RuleSet::new(21, 5, false, 1, ServeType::Fixed).unwrap();
    assert_eq!(r.points_to_win, 21);
    assert_eq!(r.serves_before_change, 5);
    assert!(!r.deuce_enabled);
    assert_eq!(r.serve_type, ServeType::Fixed);
}

#[test]
fn start_match_rejects_invalid_rules() {
    let bad = RuleSet {
        points_to_win: 0,
        serves_before_change: 2,
        deuce_enabled: true,
        serves_in_deuce: 1,
        serve_type: ServeType::Free,
    };
    assert!(matches!(Match::start_match(1, 2, bad, None, 1000), Err(MatchError::InvalidRuleSet)));
}

#[test]
fn empty_log_derives_initial_state() {
    let st = state(&standard(), &Vec::new());
    assert_eq!(st, DerivedMatchState { p1: 0, p2: 0, server: P1, phase: Phase::InProgress });
    assert_eq!(st.winner(), None);
}

#[test]
fn derive_is_deterministic() {
    let rules = standard();
    let mut events = level(10);
    events.push(P2);
    events.push(P1);
    events.push(P1);
    let a = derive_state(&rules, P2, &events);
    let b = derive_state(&rules, P2, &events);
    assert_eq!(a, b);
}

#[test]
fn win_by_two_at_eleven_nine() {
    let rules = standard();
    let mut events = level(9);
    events.push(P1);
    let st = state(&rules, &events);
    assert_eq!((st.p1, st.p2), (10, 9));
    assert_eq!(st.phase, Phase::InProgress);
    events.push(P1);
    let st = state(&rules, &events);
    assert_eq!((st.p1, st.p2), (11, 9));
    assert_eq!(st.phase, Phase::Finished(P1));
    assert_eq!(st.winner(), Some(P1));
}

#[test]
fn eleven_ten_is_not_finished() {
    let rules = standard();
    let mut events = level(10);
    events.push(P1);
    let st = state(&rules, &events);
    assert_eq!((st.p1, st.p2), (11, 10));
    assert_eq!(st.phase, Phase::Deuce);
    events.push(P1);
    let st = state(&rules, &events);
    assert_eq!((st.p1, st.p2), (12, 10));
    assert_eq!(st.phase, Phase::Finished(P1));
}

#[test]
fn without_deuce_reaching_target_wins() {
    let rules = RuleSet::new(11, 2, false, 1, ServeType::Free).unwrap();
    let mut events = level(10);
    let st = state(&rules, &events);
    assert_eq!(st.phase, Phase::InProgress);
    events.push(P2);
    let st = state(&rules, &events);
    assert_eq!((st.p1, st.p2), (10, 11));
    assert_eq!(st.phase, Phase::Finished(P2));
}

#[test]
fn serve_flips_after_two_points_whoever_scores() {
    let rules = standard();
    for (a, b) in [(P1, P1), (P1, P2), (P2, P1), (P2, P2)] {
        assert_eq!(state(&rules, &vec![a]).server, P1);
        assert_eq!(state(&rules, &vec![a, b]).server, P2);
        assert_eq!(state(&rules, &vec![a, b, a]).server, P2);
        assert_eq!(state(&rules, &vec![a, b, a, b]).server, P1);
    }
}

#[test]
fn deuce_serve_alternates_every_point() {
    let rules = standard();
    let mut events = level(9);
    events.push(P1);
    // (10, 9): normal rotation still applies.
    assert_eq!(state(&rules, &events).phase, Phase::InProgress);
    events.push(P2);
    // (10, 10): deuce, the serve changes on every point from here.
    let mut last = state(&rules, &events);
    assert_eq!(last.phase, Phase::Deuce);
    for scorer in [P1, P2, P2, P1, P1, P2] {
        events.push(scorer);
        let st = state(&rules, &events);
        assert_eq!(st.phase, Phase::Deuce);
        assert_eq!(st.server, last.server.other());
        last = st;
    }
}

#[test]
fn deuce_threshold_replaces_normal_threshold() {
    // After 20 points at (10, 10) the serve has just changed hands. The 21st
    // point is played in deuce: one serve each changes the serve again, two
    // serves each (the normal threshold) would not.
    let mut events = level(10);
    let one = RuleSet::new(11, 2, true, 1, ServeType::Free).unwrap();
    let two = RuleSet::new(11, 2, true, 2, ServeType::Free).unwrap();
    let at_20 = state(&one, &events);
    assert_eq!(at_20, state(&two, &events));
    events.push(P1);
    assert_eq!(state(&one, &events).server, at_20.server.other());
    assert_eq!(state(&two, &events).server, at_20.server);
}

#[test]
fn fixed_serve_never_changes() {
    let rules = RuleSet::new(11, 2, true, 1, ServeType::Fixed).unwrap();
    let mut events = Vec::new();
    for i in 0..30usize {
        events.push(if i % 3 == 0 { P2 } else { P1 });
        if let Ok(st) = derive_state(&rules, P2, &events) {
            assert_eq!(st.server, P2);
        }
    }
    let mut deuce = level(14);
    deuce.push(P1);
    assert_eq!(derive_state(&rules, P2, &deuce).unwrap().server, P2);
}

#[test]
fn event_after_win_is_corrupt_log() {
    let rules = standard();
    let mut events = vec![P1; 11];
    assert_eq!(state(&rules, &events).phase, Phase::Finished(P1));
    events.push(P2);
    assert_eq!(derive_state(&rules, P1, &events), Err(MatchError::CorruptLog));
}

#[test]
fn replay_equals_incremental_steps() {
    let rules = standard();
    let mut events = level(10);
    events.extend([P1, P2, P2, P1, P1, P1]);
    let mut p = Progress::start(P2);
    for i in 0..events.len() {
        let full = derive_state(&rules, P2, &events[..i].to_vec()).unwrap();
        assert_eq!(p.snapshot(), full);
        p = advance(&rules, &p, events[i]);
    }
    assert_eq!(p.snapshot(), derive_state(&rules, P2, &events).unwrap());
    assert_eq!(p.phase, Phase::Finished(P1));
}

#[test]
fn event_log_append_truncate_prefix() {
    let mut log = EventLog::new();
    assert_eq!(log.truncate_last(), Err(MatchError::EmptyLog));
    log.append(P1);
    log.append(P2);
    log.append(P2);
    assert_eq!(log.len(), 3);
    assert_eq!(log.prefix(2), vec![P1, P2]);
    assert_eq!(log.prefix(0), Vec::<PlayerSlot>::new());
    assert_eq!(log.truncate_last(), Ok(P2));
    assert_eq!(log.events(), &vec![P1, P2]);
    let from = EventLog::from_events(vec![P2, P1]);
    assert_eq!(from.events(), &vec![P2, P1]);
}

#[test]
fn point_needs_first_server() {
    let mut m = Match::start_match(1, 2, standard(), None, 1000).unwrap();
    let (mut s1, mut s2) = (zero(), zero());
    assert_eq!(m.state(), None);
    assert_eq!(m.add_point(P1, 1005, &mut s1, &mut s2), Err(MatchError::ServerNotSet));
    assert_eq!(m.set_first_server(P2), Ok(()));
    assert_eq!(m.first_server(), Some(P2));
    assert_eq!(m.add_point(P1, 1005, &mut s1, &mut s2), Ok(()));
    assert_eq!(m.state().unwrap().p1, 1);
    assert_eq!(m.set_first_server(P1), Err(MatchError::MatchAlreadyStarted));
    assert_eq!(m.first_server(), Some(P2));
}

#[test]
fn finish_then_undo_restores_statistics() {
    let mut m = started(standard());
    let mut s1 = PlayerStatistics { matches_played: 4, wins: 3 };
    let mut s2 = PlayerStatistics { matches_played: 7, wins: 1 };
    for _ in 0..10 {
        m.add_point(P2, 1005, &mut s1, &mut s2).unwrap();
    }
    assert_eq!(m.status(), MatchStatus::InProgress);
    assert_eq!(m.winner_id(), None);
    m.add_point(P2, 1005, &mut s1, &mut s2).unwrap();
    m.add_point(P2, 1200, &mut s1, &mut s2).unwrap_err();
    assert_eq!(m.status(), MatchStatus::Finished);
    assert_eq!(m.end_time(), Some(1005));
    assert_eq!(m.winner_id(), Some(20));
    assert_eq!(s1, PlayerStatistics { matches_played: 5, wins: 3 });
    assert_eq!(s2, PlayerStatistics { matches_played: 8, wins: 2 });
    assert_eq!(m.add_point(P1, 1005, &mut s1, &mut s2), Err(MatchError::MatchNotInProgress));
    assert_eq!(m.undo_last_point(&mut s1, &mut s2), Ok(()));
    assert_eq!(m.status(), MatchStatus::InProgress);
    assert_eq!(m.end_time(), None);
    assert_eq!(s1, PlayerStatistics { matches_played: 4, wins: 3 });
    assert_eq!(s2, PlayerStatistics { matches_played: 7, wins: 1 });
    assert_eq!(m.state().unwrap().p2, 10);
}

#[test]
fn undo_after_add_restores_match() {
    let mut m = started(standard());
    let (mut s1, mut s2) = (zero(), zero());
    for scorer in [P1, P2, P2, P1, P1] {
        m.add_point(scorer, 1005, &mut s1, &mut s2).unwrap();
    }
    let before = m.state();
    let events = m.events().clone();
    for scorer in [P1, P2] {
        m.add_point(scorer, 1005, &mut s1, &mut s2).unwrap();
        assert_ne!(m.state(), before);
        m.undo_last_point(&mut s1, &mut s2).unwrap();
        assert_eq!(m.state(), before);
        assert_eq!(m.events(), &events);
        assert_eq!(m.status(), MatchStatus::InProgress);
        assert_eq!((s1, s2), (zero(), zero()));
    }
}

#[test]
fn undo_rewinds_to_empty_log() {
    let mut m = started(standard());
    let (mut s1, mut s2) = (zero(), zero());
    assert_eq!(m.undo_last_point(&mut s1, &mut s2), Err(MatchError::NothingToUndo));
    for scorer in [P1, P2, P1] {
        m.add_point(scorer, 1005, &mut s1, &mut s2).unwrap();
    }
    for _ in 0..3 {
        m.undo_last_point(&mut s1, &mut s2).unwrap();
    }
    assert!(m.events().is_empty());
    assert_eq!(m.status(), MatchStatus::InProgress);
    assert_eq!(
        m.state(),
        Some(DerivedMatchState { p1: 0, p2: 0, server: P1, phase: Phase::InProgress })
    );
    assert_eq!(m.undo_last_point(&mut s1, &mut s2), Err(MatchError::NothingToUndo));
}

#[test]
fn cancel_freezes_the_log() {
    let mut m = started(standard());
    let mut s1 = PlayerStatistics { matches_played: 2, wins: 1 };
    let mut s2 = PlayerStatistics { matches_played: 3, wins: 2 };
    m.add_point(P1, 1005, &mut s1, &mut s2).unwrap();
    assert_eq!(m.cancel_match(), Ok(()));
    assert_eq!(m.status(), MatchStatus::Cancelled);
    assert_eq!(m.add_point(P1, 1005, &mut s1, &mut s2), Err(MatchError::MatchCancelled));
    assert_eq!(m.undo_last_point(&mut s1, &mut s2), Err(MatchError::MatchCancelled));
    assert_eq!(m.cancel_match(), Err(MatchError::MatchNotInProgress));
    assert_eq!(m.events(), &vec![P1]);
    assert_eq!(s1, PlayerStatistics { matches_played: 2, wins: 1 });
    assert_eq!(s2, PlayerStatistics { matches_played: 3, wins: 2 });
}

#[test]
fn cancel_of_finished_match_is_refused() {
    let mut m = started(RuleSet::new(1, 1, false, 1, ServeType::Free).unwrap());
    let (mut s1, mut s2) = (zero(), zero());
    m.add_point(P1, 1005, &mut s1, &mut s2).unwrap();
    assert_eq!(m.status(), MatchStatus::Finished);
    assert_eq!(m.winner_id(), Some(10));
    assert_eq!(m.cancel_match(), Err(MatchError::MatchNotInProgress));
    assert_eq!(s1, PlayerStatistics { matches_played: 1, wins: 1 });
    assert_eq!(s2, PlayerStatistics { matches_played: 1, wins: 0 });
}

#[test]
fn undo_with_zero_counters_is_statistics_corruption() {
    let mut m = started(RuleSet::new(1, 1, false, 1, ServeType::Free).unwrap());
    let (mut s1, mut s2) = (zero(), zero());
    m.add_point(P2, 1005, &mut s1, &mut s2).unwrap();
    let (mut z1, mut z2) = (zero(), zero());
    assert_eq!(m.undo_last_point(&mut z1, &mut z2), Err(MatchError::StatisticsCorruption));
    assert_eq!(m.status(), MatchStatus::Finished);
    assert_eq!(m.events(), &vec![P2]);
}

#[test]
fn counter_overflow_refuses_winning_point() {
    let mut m = started(RuleSet::new(1, 1, false, 1, ServeType::Free).unwrap());
    let mut s1 = PlayerStatistics { matches_played: u64::MAX, wins: 0 };
    let mut s2 = zero();
    assert_eq!(m.add_point(P1, 1005, &mut s1, &mut s2), Err(MatchError::StatisticsCorruption));
    assert!(m.events().is_empty());
    assert_eq!(m.status(), MatchStatus::InProgress);
    assert_eq!(s2, zero());
}

#[test]
fn aggregator_hooks_are_inverse() {
    let mut a = PlayerStatistics { matches_played: 3, wins: 2 };
    let mut b = PlayerStatistics { matches_played: 5, wins: 0 };
    on_match_finished(P1, &mut a, &mut b).unwrap();
    assert_eq!(a, PlayerStatistics { matches_played: 4, wins: 3 });
    assert_eq!(b, PlayerStatistics { matches_played: 6, wins: 0 });
    on_match_unfinished(P1, &mut a, &mut b).unwrap();
    assert_eq!(a, PlayerStatistics { matches_played: 3, wins: 2 });
    assert_eq!(b, PlayerStatistics { matches_played: 5, wins: 0 });
    assert_eq!(on_match_unfinished(P2, &mut a, &mut b), Err(MatchError::StatisticsCorruption));
    assert_eq!(b, PlayerStatistics { matches_played: 5, wins: 0 });
}

#[test]
fn match_accessors_report_setup() {
    let m = started(standard());
    assert_eq!(m.player1(), 10);
    assert_eq!(m.player2(), 20);
    assert_eq!(m.start_time(), 1000);
    assert_eq!(m.end_time(), None);
    assert_eq!(m.rules(), standard());
    assert_eq!(m.status(), MatchStatus::InProgress);
    assert_eq!(P1.other(), P2);
}

#[test]
fn restore_replays_stored_log() {
    let rules = standard();
    let mut events = level(3);
    events.push(P1);
    let m = Match::restore(1, 2, rules, Some(P2), events.clone(), false, 50, None).unwrap();
    assert_eq!(m.status(), MatchStatus::InProgress);
    assert_eq!(m.state(), Some(derive_state(&rules, P2, &events).unwrap()));
    assert_eq!(m.events(), &events);
    assert_eq!(m.start_time(), 50);

    let won = vec![P2; 11];
    let m = Match::restore(1, 2, rules, Some(P1), won.clone(), false, 50, Some(90)).unwrap();
    assert_eq!(m.status(), MatchStatus::Finished);
    assert_eq!(m.winner_id(), Some(2));
    assert_eq!(m.end_time(), Some(90));

    let c = Match::restore(1, 2, rules, Some(P1), vec![P1], true, 50, None).unwrap();
    assert_eq!(c.status(), MatchStatus::Cancelled);
}

#[test]
fn restore_rejects_impossible_logs() {
    let rules = standard();
    assert!(matches!(
        Match::restore(1, 2, rules, None, vec![P1], false, 0, None),
        Err(MatchError::ServerNotSet)
    ));
    let mut past_win = vec![P1; 11];
    past_win.push(P2);
    assert!(matches!(
        Match::restore(1, 2, rules, Some(P1), past_win, false, 0, Some(5)),
        Err(MatchError::CorruptLog)
    ));
    assert!(matches!(
        Match::restore(1, 2, rules, Some(P1), vec![P1; 11], true, 0, Some(5)),
        Err(MatchError::CorruptLog)
    ));
    assert!(matches!(
        Match::restore(1, 2, rules, Some(P1), vec![P1; 11], false, 0, None),
        Err(MatchError::CorruptLog)
    ));
    let bad = RuleSet { serves_in_deuce: 0, ..rules };
    assert!(matches!(
        Match::restore(1, 2, bad, Some(P1), Vec::new(), false, 0, None),
        Err(MatchError::InvalidRuleSet)
    ));
}
