use baselom::wire::{from_wire, to_wire, WireState};
use baselom::{BaselomError, GameState, Score};

#[test]
fn test_round_trip_empty_bases() {
    let state = GameState::default();
    let wire = to_wire(&state);
    assert_eq!(wire.half, "top");
    let back = from_wire(&wire).unwrap();
    assert_eq!(back, state);
}

#[test]
fn test_round_trip_all_occupied() {
    let state = GameState {
        inning: 9,
        top: false,
        outs: 2,
        balls: 3,
        strikes: 2,
        bases: (
            Some("r1".to_string()),
            Some("r2".to_string()),
            Some("r3".to_string()),
        ),
        score: Score { home: 11, away: 10 },
        current_batter_id: Some("b1".to_string()),
        current_pitcher_id: Some("p1".to_string()),
    };
    let wire = to_wire(&state);
    assert_eq!(wire.half, "bottom");
    assert_eq!(wire.score.home, 11);
    let back = from_wire(&wire).unwrap();
    assert_eq!(back, state);
}

#[test]
fn test_bad_half_rejected() {
    let wire = WireState {
        inning: 1,
        half: "middle".to_string(),
        outs: 0,
        balls: 0,
        strikes: 0,
        bases: (None, None, None),
        score: Score::default(),
        current_batter_id: None,
        current_pitcher_id: None,
    };
    match from_wire(&wire) {
        Err(BaselomError::ValidationError(m)) => {
            assert_eq!(m, "half must be 'top' or 'bottom'");
        }
        other => panic!("expected a validation error, got {:?}", other),
    }
}
