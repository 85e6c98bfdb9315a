//! Core data structures for the baseball game state.

use vstd::prelude::*;

verus! {

/// Mathematical model of one game-state snapshot: counters as
/// unbounded integers, runner identifiers as character sequences.
pub ghost struct StateModel {
    /// 1-based inning number
    pub inning: int,
    /// True if top of inning (away team batting)
    pub top: bool,
    /// Number of outs
    pub outs: int,
    /// Number of balls in the current count
    pub balls: int,
    /// Number of strikes in the current count
    pub strikes: int,
    /// Base runners: (first, second, third)
    pub bases: (Option<Seq<char>>, Option<Seq<char>>, Option<Seq<char>>),
    /// Runs scored by the home team
    pub home: int,
    /// Runs scored by the away team
    pub away: int,
    /// Identifier of the current batter
    pub batter: Option<Seq<char>>,
    /// Identifier of the current pitcher
    pub pitcher: Option<Seq<char>>,
}

/// The field ranges every state the engine returns satisfies, and the
/// ranges the validator checks: outs 0-2, balls 0-3, strikes 0-2,
/// inning at least 1, scores non-negative.
pub open spec fn wf_state(s: StateModel) -> bool {
    &&& 0 <= s.outs <= 2
    &&& 0 <= s.balls <= 3
    &&& 0 <= s.strikes <= 2
    &&& s.inning >= 1
    &&& s.home >= 0
    &&& s.away >= 0
}

/// Represents the current state of a baseball game.
#[derive(Debug)]
pub struct GameState {
    /// 1-based inning number
    pub inning: u8,
    /// True if top of inning (away team batting)
    pub top: bool,
    /// Number of outs (0-2)
    pub outs: u8,
    /// Number of balls in the current count (0-3)
    pub balls: u8,
    /// Number of strikes in the current count (0-2)
    pub strikes: u8,
    /// Base runners: (first, second, third)
    pub bases: (Option<String>, Option<String>, Option<String>),
    /// Current score
    pub score: Score,
    /// ID of current batter
    pub current_batter_id: Option<String>,
    /// ID of current pitcher
    pub current_pitcher_id: Option<String>,
}

impl View for GameState {
    type V = StateModel;

    open spec fn view(&self) -> StateModel {
        StateModel {
            inning: self.inning as int,
            top: self.top,
            outs: self.outs as int,
            balls: self.balls as int,
            strikes: self.strikes as int,
            bases: (self.bases.0.deep_view(), self.bases.1.deep_view(), self.bases.2.deep_view()),
            home: self.score.home as int,
            away: self.score.away as int,
            batter: self.current_batter_id.deep_view(),
            pitcher: self.current_pitcher_id.deep_view(),
        }
    }
}

/// Compares two strings for character-for-character equality.
pub fn str_eq(a: &str, b: &str) -> (r: bool)
    ensures
        r == (a@ == b@),
{
    let x: String = a.to_owned();
    let y: String = b.to_owned();
    x == y
}

/// Copies an optional runner identifier.
pub fn clone_id(x: &Option<String>) -> (r: Option<String>)
    ensures
        r.deep_view() == x.deep_view(),
{
    match x {
        Some(s) => Some(s.clone()),
        None => None,
    }
}

impl Clone for GameState {
    fn clone(&self) -> (r: Self)
        ensures
            r@ == self@,
    {
        GameState {
            inning: self.inning,
            top: self.top,
            outs: self.outs,
            balls: self.balls,
            strikes: self.strikes,
            bases: (clone_id(&self.bases.0), clone_id(&self.bases.1), clone_id(&self.bases.2)),
            score: self.score,
            current_batter_id: clone_id(&self.current_batter_id),
            current_pitcher_id: clone_id(&self.current_pitcher_id),
        }
    }
}

/// Compares two optional runner identifiers character for character.
pub fn opt_id_eq(a: &Option<String>, b: &Option<String>) -> (r: bool)
    ensures
        r == (a.deep_view() == b.deep_view()),
{
    match (a, b) {
        (None, None) => true,
        (Some(x), Some(y)) => str_eq(x.as_str(), y.as_str()),
        _ => false,
    }
}

impl PartialEq for GameState {
    /// Structural equality: every field agrees, identifiers compared
    /// by their characters.
    fn eq(&self, other: &Self) -> (r: bool) {
        self.inning == other.inning && self.top == other.top && self.outs == other.outs
            && self.balls == other.balls && self.strikes == other.strikes && opt_id_eq(
            &self.bases.0,
            &other.bases.0,
        ) && opt_id_eq(&self.bases.1, &other.bases.1) && opt_id_eq(&self.bases.2, &other.bases.2)
            && self.score.home == other.score.home && self.score.away == other.score.away
            && opt_id_eq(&self.current_batter_id, &other.current_batter_id) && opt_id_eq(
            &self.current_pitcher_id,
            &other.current_pitcher_id,
        )
    }
}

impl vstd::std_specs::cmp::PartialEqSpecImpl for GameState {
    open spec fn obeys_eq_spec() -> bool {
        true
    }

    open spec fn eq_spec(&self, other: &Self) -> bool {
        self@ == other@
    }
}

impl Default for GameState {
    /// The start of a game: top of the first inning, empty count,
    /// empty bases, no score, nobody announced.
    fn default() -> (r: Self)
        ensures
            r@ == (StateModel {
                inning: 1,
                top: true,
                outs: 0,
                balls: 0,
                strikes: 0,
                bases: (None, None, None),
                home: 0,
                away: 0,
                batter: None,
                pitcher: None,
            }),
    {
        GameState {
            inning: 1,
            top: true,
            outs: 0,
            balls: 0,
            strikes: 0,
            bases: (None, None, None),
            score: Score { home: 0, away: 0 },
            current_batter_id: None,
            current_pitcher_id: None,
        }
    }
}

/// Score tracking for both teams.
#[derive(Debug, Clone, Copy, PartialEq, Eq, Structural)]
pub struct Score {
    pub home: u32,
    pub away: u32,
}

impl Default for Score {
    fn default() -> (r: Self)
        ensures
            r.home == 0,
            r.away == 0,
    {
        Score { home: 0, away: 0 }
    }
}

/// Configurable game rules. Accepted by the engine's entry point but
/// not consulted by any transition.
#[derive(Debug, Clone)]
pub struct GameRules {
    /// Whether designated hitter is used
    pub designated_hitter: bool,
    /// Maximum number of innings (None for unlimited)
    pub max_innings: Option<u8>,
    /// Extra innings tiebreaker rule
    pub extra_innings_tiebreaker: Option<String>,
}

impl Default for GameRules {
    fn default() -> (r: Self)
        ensures
            r.designated_hitter == false,
            r.max_innings == Some(9u8),
            r.extra_innings_tiebreaker is None,
    {
        GameRules {
            designated_hitter: false,
            max_innings: Some(9),
            extra_innings_tiebreaker: None,
        }
    }
}

} // verus!
