//! FSM engine logic for state transitions.

use vstd::prelude::*;

use crate::errors::BaselomError;
use crate::models::{clone_id, str_eq, wf_state, GameRules, GameState, Score, StateModel};

verus! {

/// The closed, case-sensitive set of pitch-outcome codes the engine accepts.
pub open spec fn known_code(p: Seq<char>) -> bool {
    ||| p == "ball"@
    ||| p == "strike_called"@
    ||| p == "strike_swinging"@
    ||| p == "foul"@
    ||| p == "foul_tip"@
}

/// Whether a fourth ball would force a run in: the batter walks and
/// every base is occupied, so the runner on third must score.
pub open spec fn walk_forces_run(s: StateModel) -> bool {
    &&& s.batter is Some
    &&& s.bases.0 is Some
    &&& s.bases.1 is Some
    &&& s.bases.2 is Some
}

/// The run total of the team currently at bat.
pub open spec fn batting_score(s: StateModel) -> int {
    if s.top {
        s.away
    } else {
        s.home
    }
}

/// Out recording: one more out, a fresh count for the next batter.
/// A third out retires the side: outs return to 0, the bases clear,
/// the half flips, and a finished bottom half advances the inning.
pub open spec fn record_out_model(s: StateModel) -> StateModel {
    if s.outs + 1 >= 3 {
        StateModel {
            outs: 0,
            balls: 0,
            strikes: 0,
            bases: (None, None, None),
            top: !s.top,
            inning: if s.top {
                s.inning
            } else {
                s.inning + 1
            },
            ..s
        }
    } else {
        StateModel { outs: s.outs + 1, balls: 0, strikes: 0, ..s }
    }
}

/// Walk resolution: the batter takes first, forcing each occupant
/// forward only as far as occupied bases require; a runner forced off
/// third scores for the batting team. Without a batter identifier
/// nothing advances. The count resets either way.
pub open spec fn process_walk_model(s: StateModel) -> StateModel {
    let cleared = StateModel { balls: 0, strikes: 0, ..s };
    match s.batter {
        None => cleared,
        Some(b) => {
            let (first, second, third) = s.bases;
            if first is None {
                StateModel { bases: (Some(b), second, third), ..cleared }
            } else if second is None {
                StateModel { bases: (Some(b), first, third), ..cleared }
            } else if third is None {
                StateModel { bases: (Some(b), first, second), ..cleared }
            } else {
                StateModel {
                    bases: (Some(b), first, second),
                    home: if s.top {
                        s.home
                    } else {
                        s.home + 1
                    },
                    away: if s.top {
                        s.away + 1
                    } else {
                        s.away
                    },
                    ..cleared
                }
            }
        },
    }
}

/// The whole engine as one function of (state, pitch-outcome code):
/// `None` stands for the rejection of an unrecognized code, and the
/// caller's state is then kept as it was.
pub open spec fn apply_pitch_model(s: StateModel, p: Seq<char>) -> Option<StateModel> {
    if p == "ball"@ {
        if s.balls < 3 {
            Some(StateModel { balls: s.balls + 1, ..s })
        } else {
            Some(process_walk_model(s))
        }
    } else if p == "strike_called"@ || p == "strike_swinging"@ {
        if s.strikes < 2 {
            Some(StateModel { strikes: s.strikes + 1, ..s })
        } else {
            Some(record_out_model(s))
        }
    } else if p == "foul"@ {
        if s.strikes < 2 {
            Some(StateModel { strikes: s.strikes + 1, ..s })
        } else {
            Some(s)
        }
    } else if p == "foul_tip"@ {
        if s.strikes >= 2 {
            Some(record_out_model(s))
        } else {
            Some(StateModel { strikes: s.strikes + 1, ..s })
        }
    } else {
        None
    }
}

/// The five pitch-outcome codes are pairwise distinct, so the
/// dispatch in `apply_pitch_model` takes exactly one branch.
proof fn lemma_codes_distinct()
    ensures
        "ball"@ != "strike_called"@,
        "ball"@ != "strike_swinging"@,
        "ball"@ != "foul"@,
        "ball"@ != "foul_tip"@,
        "strike_called"@ != "strike_swinging"@,
        "strike_called"@ != "foul"@,
        "strike_called"@ != "foul_tip"@,
        "strike_swinging"@ != "foul"@,
        "strike_swinging"@ != "foul_tip"@,
        "foul"@ != "foul_tip"@,
{
    reveal_strlit("ball");
    reveal_strlit("strike_called");
    reveal_strlit("strike_swinging");
    reveal_strlit("foul");
    reveal_strlit("foul_tip");
    assert("ball"@.len() == 4);
    assert("strike_called"@.len() == 13);
    assert("strike_swinging"@.len() == 15);
    assert("foul"@.len() == 4);
    assert("foul_tip"@.len() == 8);
    assert("ball"@[0] == 'b');
    assert("foul"@[0] == 'f');
}

/// Purity: the next state is a function of the inputs alone, so any
/// two results obtained for the same state and code are equal.
pub proof fn lemma_apply_pitch_deterministic(
    s: StateModel,
    p: Seq<char>,
    r1: Option<StateModel>,
    r2: Option<StateModel>,
)
    requires
        r1 == apply_pitch_model(s, p),
        r2 == apply_pitch_model(s, p),
    ensures
        r1 == r2,
{
}

/// Ball accumulation: with fewer than three balls, a ball adds one to
/// the count and leaves every other field unchanged.
pub proof fn lemma_ball_accumulates(s: StateModel)
    requires
        s.balls < 3,
    ensures
        apply_pitch_model(s, "ball"@) == Some((StateModel { balls: s.balls + 1, ..s })),
{
}

/// Walk with the bases loaded: the batter takes first, each runner is
/// forced one base forward, the runner from third scores for the
/// batting team, and the count resets.
pub proof fn lemma_walk_bases_loaded(s: StateModel, b: Seq<char>)
    requires
        s.balls == 3,
        s.batter == Some(b),
        s.bases.0 is Some,
        s.bases.1 is Some,
        s.bases.2 is Some,
        s.top,
    ensures
        apply_pitch_model(s, "ball"@) == Some(
            (StateModel {
                balls: 0,
                strikes: 0,
                bases: (Some(b), s.bases.0, s.bases.1),
                away: s.away + 1,
                ..s
            }),
        ),
{
}

/// Walk with first base open: the batter simply takes first, the
/// other runners hold, and no run scores.
pub proof fn lemma_walk_first_open(s: StateModel, b: Seq<char>)
    requires
        s.balls == 3,
        s.batter == Some(b),
        s.bases.0 is None,
    ensures
        apply_pitch_model(s, "ball"@) == Some(
            (StateModel { balls: 0, strikes: 0, bases: (Some(b), s.bases.1, s.bases.2), ..s }),
        ),
{
}

/// Strikeout short of the third out: one more out, a fresh count,
/// and bases, score, inning and half untouched.
pub proof fn lemma_strikeout(s: StateModel)
    requires
        s.strikes == 2,
        s.outs < 2,
    ensures
        apply_pitch_model(s, "strike_called"@) == Some(
            (StateModel { outs: s.outs + 1, balls: 0, strikes: 0, ..s }),
        ),
        apply_pitch_model(s, "strike_swinging"@) == Some(
            (StateModel { outs: s.outs + 1, balls: 0, strikes: 0, ..s }),
        ),
{
    lemma_codes_distinct();
}

/// Third out in the bottom half: outs return to 0, the bases clear,
/// the half flips to the top, and the inning advances by one.
pub proof fn lemma_third_out_bottom(s: StateModel)
    requires
        s.outs == 2,
        s.strikes == 2,
        !s.top,
    ensures
        apply_pitch_model(s, "strike_swinging"@) == Some(
            (StateModel {
                outs: 0,
                balls: 0,
                strikes: 0,
                bases: (None, None, None),
                top: true,
                inning: s.inning + 1,
                ..s
            }),
        ),
{
    lemma_codes_distinct();
}

/// Third out in the top half: outs return to 0, the bases clear, the
/// half flips to the bottom, and the inning stays the same.
pub proof fn lemma_third_out_top(s: StateModel)
    requires
        s.outs == 2,
        s.strikes == 2,
        s.top,
    ensures
        apply_pitch_model(s, "strike_swinging"@) == Some(
            (StateModel {
                outs: 0,
                balls: 0,
                strikes: 0,
                bases: (None, None, None),
                top: false,
                ..s
            }),
        ),
{
    lemma_codes_distinct();
}

/// A foul with two strikes changes nothing: the result is the input
/// state itself.
pub proof fn lemma_foul_two_strikes(s: StateModel)
    requires
        s.strikes == 2,
    ensures
        apply_pitch_model(s, "foul"@) == Some(s),
{
    lemma_codes_distinct();
}

/// A foul tip with two strikes is a strikeout: it records an out
/// exactly as a called or swinging third strike does.
pub proof fn lemma_foul_tip_two_strikes(s: StateModel)
    requires
        s.strikes >= 2,
    ensures
        apply_pitch_model(s, "foul_tip"@) == Some(record_out_model(s)),
{
    lemma_codes_distinct();
}

/// Rejection: a code outside the closed outcome set produces no next
/// state at all, so a rejected call leaves nothing to apply.
pub proof fn lemma_unknown_code_rejected(s: StateModel, p: Seq<char>)
    requires
        !known_code(p),
    ensures
        apply_pitch_model(s, p) is None,
{
}

/// Invariant preservation: from a state within the legal field
/// ranges, every accepted pitch leads to a state within them.
pub proof fn lemma_wf_preserved(s: StateModel, p: Seq<char>, n: StateModel)
    requires
        wf_state(s),
        apply_pitch_model(s, p) == Some(n),
    ensures
        wf_state(n),
{
}

/// Apply a pitch result to the game state.
///
/// Returns the next state for every code in the closed outcome set,
/// and a `ValidationError` naming the code for any other string; the
/// input state is never altered.
pub fn apply_pitch(state: &GameState, pitch_result: &str, _rules: &GameRules) -> (r: Result<
    GameState,
    BaselomError,
>)
    requires
        wf_state(state@),
        state.strikes == 2 && state.outs == 2 && !state.top ==> state.inning < u8::MAX,
        state.balls == 3 && walk_forces_run(state@) ==> batting_score(state@) < u32::MAX,
    ensures
        r is Ok <==> known_code(pitch_result@),
        r matches Ok(next) ==> Some(next@) == apply_pitch_model(state@, pitch_result@),
        r matches Ok(next) ==> wf_state(next@),
        r matches Err(e) ==> (e matches BaselomError::ValidationError(m) && m@
            == "invalid pitch_result '"@ + pitch_result@ + "'"@),
{
    if str_eq(pitch_result, "ball") {
        if state.balls < 3 {
            Ok(GameState { balls: state.balls + 1, ..state.clone() })
        } else {
            Ok(process_walk(state))
        }
    } else if str_eq(pitch_result, "strike_called") || str_eq(pitch_result, "strike_swinging") {
        if state.strikes < 2 {
            Ok(GameState { strikes: state.strikes + 1, ..state.clone() })
        } else {
            Ok(record_out(state))
        }
    } else if str_eq(pitch_result, "foul") {
        if state.strikes < 2 {
            Ok(GameState { strikes: state.strikes + 1, ..state.clone() })
        } else {
            Ok(state.clone())
        }
    } else if str_eq(pitch_result, "foul_tip") {
        if state.strikes >= 2 {
            Ok(record_out(state))
        } else {
            Ok(GameState { strikes: state.strikes + 1, ..state.clone() })
        }
    } else {
        Err(
            BaselomError::ValidationError(
                "invalid pitch_result '".to_owned().concat(pitch_result).concat("'"),
            ),
        )
    }
}

/// Records one out as `record_out_model` describes.
fn record_out(state: &GameState) -> (r: GameState)
    requires
        wf_state(state@),
        state.outs == 2 && !state.top ==> state.inning < u8::MAX,
    ensures
        r@ == record_out_model(state@),
{
    let mut outs = state.outs + 1;
    let mut top = state.top;
    let mut inning = state.inning;
    let mut bases = (
        clone_id(&state.bases.0),
        clone_id(&state.bases.1),
        clone_id(&state.bases.2),
    );

    if outs >= 3 {
        outs = 0;
        bases = (None, None, None);
        if state.top {
            top = false;
        } else {
            top = true;
            inning = state.inning + 1;
        }
    }

    GameState { outs, balls: 0, strikes: 0, bases, top, inning, ..state.clone() }
}

/// Resolves a walk as `process_walk_model` describes.
fn process_walk(state: &GameState) -> (r: GameState)
    requires
        walk_forces_run(state@) ==> batting_score(state@) < u32::MAX,
    ensures
        r@ == process_walk_model(state@),
{
    let first = clone_id(&state.bases.0);
    let second = clone_id(&state.bases.1);
    let third = clone_id(&state.bases.2);

    match &state.current_batter_id {
        None => GameState {
            balls: 0,
            strikes: 0,
            bases: (first, second, third),
            ..state.clone()
        },
        Some(b) => {
            if first.is_none() {
                GameState {
                    balls: 0,
                    strikes: 0,
                    bases: (Some(b.clone()), second, third),
                    ..state.clone()
                }
            } else if second.is_none() {
                GameState {
                    balls: 0,
                    strikes: 0,
                    bases: (Some(b.clone()), first, third),
                    ..state.clone()
                }
            } else if third.is_none() {
                GameState {
                    balls: 0,
                    strikes: 0,
                    bases: (Some(b.clone()), first, second),
                    ..state.clone()
                }
            } else {
                let score = if state.top {
                    Score { home: state.score.home, away: state.score.away + 1 }
                } else {
                    Score { home: state.score.home + 1, away: state.score.away }
                };
                GameState {
                    balls: 0,
                    strikes: 0,
                    bases: (Some(b.clone()), first, second),
                    score,
                    ..state.clone()
                }
            }
        },
    }
}

} // verus!
