//! The canonical wire shape of a game state.
//!
//! On the wire the half-inning flag travels as the string `"top"` or
//! `"bottom"` and the two score counters as a nested pair; every other
//! field carries over as it is. `WireState` is that shape as a plain
//! value; a host serializes it with whatever encoder it uses and hands
//! the decoded record back to [`from_wire`].

use vstd::prelude::*;

use crate::errors::BaselomError;
use crate::models::{clone_id, str_eq, GameState, Score, StateModel};

verus! {

/// Mathematical model of one wire record.
pub ghost struct WireModel {
    /// 1-based inning number
    pub inning: int,
    /// `"top"` or `"bottom"`; anything else is rejected on the way in
    pub half: Seq<char>,
    /// Number of outs
    pub outs: int,
    /// Number of balls in the current count
    pub balls: int,
    /// Number of strikes in the current count
    pub strikes: int,
    /// Base runners: (first, second, third)
    pub bases: (Option<Seq<char>>, Option<Seq<char>>, Option<Seq<char>>),
    /// Runs scored by the home team
    pub home: int,
    /// Runs scored by the away team
    pub away: int,
    /// Identifier of the current batter
    pub batter: Option<Seq<char>>,
    /// Identifier of the current pitcher
    pub pitcher: Option<Seq<char>>,
}

/// A game state in its wire shape.
#[derive(Debug)]
pub struct WireState {
    /// 1-based inning number
    pub inning: u8,
    /// Half-inning flag: `"top"` (away team batting) or `"bottom"`
    pub half: String,
    /// Number of outs (0-2)
    pub outs: u8,
    /// Number of balls in the current count (0-3)
    pub balls: u8,
    /// Number of strikes in the current count (0-2)
    pub strikes: u8,
    /// Base runners: (first, second, third)
    pub bases: (Option<String>, Option<String>, Option<String>),
    /// Current score
    pub score: Score,
    /// ID of current batter
    pub current_batter_id: Option<String>,
    /// ID of current pitcher
    pub current_pitcher_id: Option<String>,
}

impl View for WireState {
    type V = WireModel;

    open spec fn view(&self) -> WireModel {
        WireModel {
            inning: self.inning as int,
            half: self.half@,
            outs: self.outs as int,
            balls: self.balls as int,
            strikes: self.strikes as int,
            bases: (self.bases.0.deep_view(), self.bases.1.deep_view(), self.bases.2.deep_view()),
            home: self.score.home as int,
            away: self.score.away as int,
            batter: self.current_batter_id.deep_view(),
            pitcher: self.current_pitcher_id.deep_view(),
        }
    }
}

/// The wire record that stands for a state: the half-inning flag
/// becomes its string form, everything else carries over.
pub open spec fn wire_of(s: StateModel) -> WireModel {
    WireModel {
        inning: s.inning,
        half: if s.top {
            "top"@
        } else {
            "bottom"@
        },
        outs: s.outs,
        balls: s.balls,
        strikes: s.strikes,
        bases: s.bases,
        home: s.home,
        away: s.away,
        batter: s.batter,
        pitcher: s.pitcher,
    }
}

/// The state a wire record stands for, or `None` when its half field
/// is neither `"top"` nor `"bottom"`.
pub open spec fn state_of_wire(w: WireModel) -> Option<StateModel> {
    if w.half == "top"@ || w.half == "bottom"@ {
        Some(
            StateModel {
                inning: w.inning,
                top: w.half == "top"@,
                outs: w.outs,
                balls: w.balls,
                strikes: w.strikes,
                bases: w.bases,
                home: w.home,
                away: w.away,
                batter: w.batter,
                pitcher: w.pitcher,
            },
        )
    } else {
        None
    }
}

/// Round trip: decoding the wire record of any state gives that state
/// back, whatever its bases, identifiers and counters hold.
pub proof fn lemma_wire_round_trip(s: StateModel)
    ensures
        state_of_wire(wire_of(s)) == Some(s),
{
    reveal_strlit("top");
    reveal_strlit("bottom");
    assert("top"@.len() == 3);
    assert("bottom"@.len() == 6);
}

/// Renders a state in its wire shape.
pub fn to_wire(state: &GameState) -> (w: WireState)
    ensures
        w@ == wire_of(state@),
{
    WireState {
        inning: state.inning,
        half: if state.top {
            "top".to_owned()
        } else {
            "bottom".to_owned()
        },
        outs: state.outs,
        balls: state.balls,
        strikes: state.strikes,
        bases: (clone_id(&state.bases.0), clone_id(&state.bases.1), clone_id(&state.bases.2)),
        score: state.score,
        current_batter_id: clone_id(&state.current_batter_id),
        current_pitcher_id: clone_id(&state.current_pitcher_id),
    }
}

/// Reads a wire record back into a state.
///
/// Succeeds exactly when the half field is `"top"` or `"bottom"`;
/// otherwise returns a `ValidationError` and no state.
pub fn from_wire(w: &WireState) -> (r: Result<GameState, BaselomError>)
    ensures
        r is Ok <==> (w.half@ == "top"@ || w.half@ == "bottom"@),
        r matches Ok(s) ==> Some(s@) == state_of_wire(w@),
        r matches Err(e) ==> (e matches BaselomError::ValidationError(m) && m@
            == "half must be 'top' or 'bottom'"@),
{
    let top = if str_eq(w.half.as_str(), "top") {
        true
    } else if str_eq(w.half.as_str(), "bottom") {
        false
    } else {
        return Err(BaselomError::ValidationError("half must be 'top' or 'bottom'".to_owned()));
    };
    Ok(
        GameState {
            inning: w.inning,
            top,
            outs: w.outs,
            balls: w.balls,
            strikes: w.strikes,
            bases: (clone_id(&w.bases.0), clone_id(&w.bases.1), clone_id(&w.bases.2)),
            score: w.score,
            current_batter_id: clone_id(&w.current_batter_id),
            current_pitcher_id: clone_id(&w.current_pitcher_id),
        },
    )
}

} // verus!
