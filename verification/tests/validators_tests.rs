use baselom::{validate_state, BaselomError, GameState, Score};

fn create_test_state(inning: u8, outs: u8) -> GameState {
    GameState {
        inning,
        top: true,
        outs,
        balls: 0,
        strikes: 0,
        bases: (None, None, None),
        score: Score::default(),
        current_batter_id: None,
        current_pitcher_id: None,
    }
}

#[test]
fn test_valid_state() {
    let state = create_test_state(1, 0);
    assert!(validate_state(&state).is_ok());
}

#[test]
fn test_valid_state_max_outs() {
    let state = create_test_state(1, 2);
    assert!(validate_state(&state).is_ok());
}

#[test]
fn test_invalid_outs_too_many() {
    let state = create_test_state(1, 3);
    let result = validate_state(&state);
    assert!(result.is_err());
    assert!(matches!(result, Err(BaselomError::ValidationError(_))));
}

#[test]
fn test_invalid_inning_zero() {
    let state = create_test_state(0, 0);
    let result = validate_state(&state);
    assert!(result.is_err());
    assert!(matches!(result, Err(BaselomError::ValidationError(_))));
}

#[test]
fn test_valid_high_inning() {
    let state = create_test_state(15, 1);
    assert!(validate_state(&state).is_ok());
}

#[test]
fn test_valid_full_count() {
    let state = GameState {
        balls: 3,
        strikes: 2,
        ..create_test_state(1, 2)
    };
    assert!(validate_state(&state).is_ok());
}

#[test]
fn test_invalid_balls_too_many() {
    let state = GameState {
        balls: 4,
        ..create_test_state(1, 0)
    };
    match validate_state(&state) {
        Err(BaselomError::ValidationError(m)) => {
            assert_eq!(m, "Balls must be between 0 and 3");
        }
        other => panic!("expected a validation error, got {:?}", other),
    }
}

#[test]
fn test_invalid_strikes_too_many() {
    let state = GameState {
        strikes: 3,
        ..create_test_state(1, 0)
    };
    match validate_state(&state) {
        Err(BaselomError::ValidationError(m)) => {
            assert_eq!(m, "Strikes must be between 0 and 2");
        }
        other => panic!("expected a validation error, got {:?}", other),
    }
}

#[test]
fn test_first_violation_reported() {
    let state = GameState {
        balls: 4,
        strikes: 3,
        ..create_test_state(0, 3)
    };
    match validate_state(&state) {
        Err(BaselomError::ValidationError(m)) => {
            assert_eq!(m, "Outs must be between 0 and 2");
        }
        other => panic!("expected a validation error, got {:?}", other),
    }
}
