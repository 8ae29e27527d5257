use vstd::prelude::*;

verus! {

/// One of the two sides of a match.
#[derive(Clone, Copy, Debug, PartialEq, Eq, Structural)]
pub enum PlayerSlot {
    P1,
    P2,
}

/// The side that is not `p`.
pub open spec fn opponent(p: PlayerSlot) -> PlayerSlot {
    match p {
        PlayerSlot::P1 => PlayerSlot::P2,
        PlayerSlot::P2 => PlayerSlot::P1,
    }
}

impl PlayerSlot {
    /// The other side.
    pub fn other(self) -> (r: PlayerSlot)
        ensures
            r == opponent(self),
    {
        match self {
            PlayerSlot::P1 => PlayerSlot::P2,
            PlayerSlot::P2 => PlayerSlot::P1,
        }
    }
}

/// How serve possession evolves.
#[derive(Clone, Copy, Debug, PartialEq, Eq, Structural)]
pub enum ServeType {
    /// The serve rotates by the rule set's thresholds.
    Free,
    /// The first server serves every point.
    Fixed,
}

/// Everything that can go wrong in a command on a match.
#[derive(Clone, Copy, Debug, PartialEq, Eq, Structural)]
pub enum MatchError {
    InvalidRuleSet,
    ServerNotSet,
    MatchAlreadyStarted,
    MatchNotInProgress,
    MatchCancelled,
    NothingToUndo,
    EmptyLog,
    CorruptLog,
    StatisticsCorruption,
}

/// Configuration of a game mode: win condition, serve rotation, deuce.
#[derive(Clone, Copy, Debug, PartialEq, Eq, Structural)]
pub struct RuleSet {
    pub points_to_win: u32,
    pub serves_before_change: u32,
    pub deuce_enabled: bool,
    pub serves_in_deuce: u32,
    pub serve_type: ServeType,
}

impl RuleSet {
    /// Every count of the rule set is at least one.
    pub open spec fn valid(self) -> bool {
        self.points_to_win >= 1 && self.serves_before_change >= 1 && self.serves_in_deuce >= 1
    }

    /// Builds a rule set, refusing one with a zero count.
    pub fn new(
        points_to_win: u32,
        serves_before_change: u32,
        deuce_enabled: bool,
        serves_in_deuce: u32,
        serve_type: ServeType,
    ) -> (r: Result<RuleSet, MatchError>)
        ensures
            points_to_win >= 1 && serves_before_change >= 1 && serves_in_deuce >= 1 ==> r == Ok::<
                RuleSet,
                MatchError,
            >(
                (RuleSet {
                    points_to_win,
                    serves_before_change,
                    deuce_enabled,
                    serves_in_deuce,
                    serve_type,
                }),
            ),
            !(points_to_win >= 1 && serves_before_change >= 1 && serves_in_deuce >= 1) ==> r
                == Err::<RuleSet, MatchError>(MatchError::InvalidRuleSet),
    {
        if points_to_win == 0 || serves_before_change == 0 || serves_in_deuce == 0 {
            Err(MatchError::InvalidRuleSet)
        } else {
            Ok(RuleSet { points_to_win, serves_before_change, deuce_enabled, serves_in_deuce, serve_type })
        }
    }
}

} // verus!
