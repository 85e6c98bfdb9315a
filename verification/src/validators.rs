//! State validation rules.

use vstd::prelude::*;

use crate::errors::BaselomError;
use crate::models::GameState;

verus! {

/// Whether the result is a `ValidationError` carrying exactly `m`.
pub open spec fn rejects_with(r: Result<(), BaselomError>, m: Seq<char>) -> bool {
    r matches Err(e) && e matches BaselomError::ValidationError(d) && d@ == m
}

/// Validate that a game state is consistent.
///
/// Accepts exactly the states whose counters are in range; on a
/// violation, reports the first out-of-range field in the order
/// outs, balls, strikes, inning.
pub fn validate_state(state: &GameState) -> (r: Result<(), BaselomError>)
    ensures
        r is Ok <==> (state.outs <= 2 && state.balls <= 3 && state.strikes <= 2 && state.inning
            >= 1),
        state.outs > 2 ==> rejects_with(r, "Outs must be between 0 and 2"@),
        state.outs <= 2 && state.balls > 3 ==> rejects_with(r, "Balls must be between 0 and 3"@),
        state.outs <= 2 && state.balls <= 3 && state.strikes > 2 ==> rejects_with(
            r,
            "Strikes must be between 0 and 2"@,
        ),
        state.outs <= 2 && state.balls <= 3 && state.strikes <= 2 && state.inning == 0
            ==> rejects_with(r, "Inning must be at least 1"@),
{
    if state.outs > 2 {
        return Err(BaselomError::ValidationError("Outs must be between 0 and 2".to_owned()));
    }
    if state.balls > 3 {
        return Err(BaselomError::ValidationError("Balls must be between 0 and 3".to_owned()));
    }
    if state.strikes > 2 {
        return Err(BaselomError::ValidationError("Strikes must be between 0 and 2".to_owned()));
    }
    if state.inning == 0 {
        return Err(BaselomError::ValidationError("Inning must be at least 1".to_owned()));
    }
    Ok(())
}

} // verus!
