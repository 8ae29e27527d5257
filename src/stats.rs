use vstd::prelude::*;
use crate::rules::{MatchError, PlayerSlot};

verus! {

/// Win and play counters of one player.
#[derive(Clone, Copy, Debug, PartialEq, Eq, Structural)]
pub struct PlayerStatistics {
    pub matches_played: u64,
    pub wins: u64,
}

/// The counters after a finished match whose sides hold `s1` and `s2` and
/// whose winner is `winner`; `StatisticsCorruption` if a counter would leave
/// its range.
pub open spec fn finished_counters(
    winner: PlayerSlot,
    s1: PlayerStatistics,
    s2: PlayerStatistics,
) -> Result<(PlayerStatistics, PlayerStatistics), MatchError> {
    if s1.matches_played == u64::MAX || s2.matches_played == u64::MAX || (winner
        == PlayerSlot::P1 && s1.wins == u64::MAX) || (winner == PlayerSlot::P2 && s2.wins
        == u64::MAX) {
        Err(MatchError::StatisticsCorruption)
    } else {
        Ok(
            (
                PlayerStatistics {
                    matches_played: (s1.matches_played + 1) as u64,
                    wins: if winner == PlayerSlot::P1 { (s1.wins + 1) as u64 } else { s1.wins },
                },
                PlayerStatistics {
                    matches_played: (s2.matches_played + 1) as u64,
                    wins: if winner == PlayerSlot::P2 { (s2.wins + 1) as u64 } else { s2.wins },
                },
            ),
        )
    }
}

/// The counters after a finished match is reopened: the exact inverse of
/// [`finished_counters`]; `StatisticsCorruption` if a counter would go
/// negative.
pub open spec fn unfinished_counters(
    winner: PlayerSlot,
    s1: PlayerStatistics,
    s2: PlayerStatistics,
) -> Result<(PlayerStatistics, PlayerStatistics), MatchError> {
    if s1.matches_played == 0 || s2.matches_played == 0 || (winner == PlayerSlot::P1 && s1.wins
        == 0) || (winner == PlayerSlot::P2 && s2.wins == 0) {
        Err(MatchError::StatisticsCorruption)
    } else {
        Ok(
            (
                PlayerStatistics {
                    matches_played: (s1.matches_played - 1) as u64,
                    wins: if winner == PlayerSlot::P1 { (s1.wins - 1) as u64 } else { s1.wins },
                },
                PlayerStatistics {
                    matches_played: (s2.matches_played - 1) as u64,
                    wins: if winner == PlayerSlot::P2 { (s2.wins - 1) as u64 } else { s2.wins },
                },
            ),
        )
    }
}

/// Records a finished match on the counters of its two players; on failure
/// nothing changes.
pub fn on_match_finished(winner: PlayerSlot, s1: &mut PlayerStatistics, s2: &mut PlayerStatistics) -> (r: Result<(), MatchError>)
    ensures
        match finished_counters(winner, *old(s1), *old(s2)) {
            Ok((n1, n2)) => r is Ok && *final(s1) == n1 && *final(s2) == n2,
            Err(e) => r == Err::<(), MatchError>(e) && *final(s1) == *old(s1) && *final(s2) == *old(s2),
        },
{
    if s1.matches_played == u64::MAX || s2.matches_played == u64::MAX || (winner
        == PlayerSlot::P1 && s1.wins == u64::MAX) || (winner == PlayerSlot::P2 && s2.wins
        == u64::MAX) {
        return Err(MatchError::StatisticsCorruption);
    }
    s1.matches_played = s1.matches_played + 1;
    s2.matches_played = s2.matches_played + 1;
    match winner {
        PlayerSlot::P1 => s1.wins = s1.wins + 1,
        PlayerSlot::P2 => s2.wins = s2.wins + 1,
    }
    Ok(())
}

/// Reverses [`on_match_finished`] when a finished match is reopened; on
/// failure nothing changes.
pub fn on_match_unfinished(winner: PlayerSlot, s1: &mut PlayerStatistics, s2: &mut PlayerStatistics) -> (r: Result<(), MatchError>)
    ensures
        match unfinished_counters(winner, *old(s1), *old(s2)) {
            Ok((n1, n2)) => r is Ok && *final(s1) == n1 && *final(s2) == n2,
            Err(e) => r == Err::<(), MatchError>(e) && *final(s1) == *old(s1) && *final(s2) == *old(s2),
        },
{
    if s1.matches_played == 0 || s2.matches_played == 0 || (winner == PlayerSlot::P1 && s1.wins
        == 0) || (winner == PlayerSlot::P2 && s2.wins == 0) {
        return Err(MatchError::StatisticsCorruption);
    }
    s1.matches_played = s1.matches_played - 1;
    s2.matches_played = s2.matches_played - 1;
    match winner {
        PlayerSlot::P1 => s1.wins = s1.wins - 1,
        PlayerSlot::P2 => s2.wins = s2.wins - 1,
    }
    Ok(())
}

} // verus!
