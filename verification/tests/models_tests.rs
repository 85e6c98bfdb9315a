use baselom::{GameRules, GameState, Score};

#[test]
fn test_score_default() {
    let score = Score::default();
    assert_eq!(score.home, 0);
    assert_eq!(score.away, 0);
}

#[test]
fn test_score_custom() {
    let score = Score { home: 3, away: 2 };
    assert_eq!(score.home, 3);
    assert_eq!(score.away, 2);
}

#[test]
fn test_game_rules_default() {
    let rules = GameRules::default();
    assert!(!rules.designated_hitter);
    assert_eq!(rules.max_innings, Some(9));
    assert!(rules.extra_innings_tiebreaker.is_none());
}

#[test]
fn test_game_rules_custom() {
    let rules = GameRules {
        designated_hitter: true,
        max_innings: Some(7),
        extra_innings_tiebreaker: Some("runner_on_second".to_string()),
    };
    assert!(rules.designated_hitter);
    assert_eq!(rules.max_innings, Some(7));
    assert_eq!(
        rules.extra_innings_tiebreaker,
        Some("runner_on_second".to_string())
    );
}

#[test]
fn test_game_state_creation() {
    let state = GameState {
        inning: 1,
        top: true,
        outs: 0,
        balls: 0,
        strikes: 0,
        bases: (None, None, None),
        score: Score::default(),
        current_batter_id: None,
        current_pitcher_id: None,
    };
    assert_eq!(state.inning, 1);
    assert!(state.top);
    assert_eq!(state.outs, 0);
}

#[test]
fn test_game_state_default_is_game_start() {
    let state = GameState::default();
    assert_eq!(state.inning, 1);
    assert!(state.top);
    assert_eq!(state.outs, 0);
    assert_eq!(state.balls, 0);
    assert_eq!(state.strikes, 0);
    assert_eq!(state.bases, (None, None, None));
    assert_eq!(state.score.home, 0);
    assert_eq!(state.score.away, 0);
    assert!(state.current_batter_id.is_none());
    assert!(state.current_pitcher_id.is_none());
}

#[test]
fn test_game_state_clone_equals_original() {
    let state = GameState {
        inning: 7,
        top: false,
        outs: 2,
        balls: 3,
        strikes: 1,
        bases: (Some("r1".to_string()), None, Some("r3".to_string())),
        score: Score { home: 4, away: 6 },
        current_batter_id: Some("b1".to_string()),
        current_pitcher_id: None,
    };
    let copy = state.clone();
    assert_eq!(copy, state);
}
