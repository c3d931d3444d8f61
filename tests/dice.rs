use yatzy::{Die, DieAction, DieData, DieState, GameCommand, Score, StartingState, YatzyState};

#[test]
fn points_count_matches_face() {
    for v in 0u8..=6 {
        let pts = Score::new(v).points();
        assert_eq!(pts.len(), v as usize);
        for (x, y) in pts {
            assert!(x < 9 && y < 9);
        }
    }
}

#[test]
fn points_exact_layouts() {
    assert_eq!(Score::new(0).points(), vec![]);
    assert_eq!(Score::new(1).points(), vec![(4, 4)]);
    assert_eq!(Score::new(3).points(), vec![(4, 2), (4, 4), (4, 6)]);
    assert_eq!(
        Score::new(6).points(),
        vec![(2, 2), (2, 4), (2, 6), (6, 2), (6, 4), (6, 6)]
    );
}

#[test]
fn random_die_in_range() {
    for _ in 0..500 {
        let s = Score::random_die();
        assert!(1 <= s.0 && s.0 <= 6);
    }
}

#[test]
fn random_in_given_range() {
    for _ in 0..200 {
        let s = Score::random(3, 5);
        assert!(s.0 == 3 || s.0 == 4);
    }
    assert_eq!(Score::random(9, 10), Score(9));
}

#[test]
fn different_random_die_never_repeats() {
    for v in 1u8..=6 {
        let mut seen = [false; 7];
        for _ in 0..500 {
            let r = Score::new(v).different_random_die();
            assert!(1 <= r.0 && r.0 <= 6);
            assert_ne!(r.0, v);
            seen[r.0 as usize] = true;
        }
        for w in 1u8..=6 {
            assert_eq!(seen[w as usize], w != v);
        }
    }
}

#[test]
fn different_random_in_narrow_range() {
    for _ in 0..100 {
        assert_eq!(Score::new(4).different_random(4, 6), Score(5));
        assert_eq!(Score::new(5).different_random(4, 6), Score(4));
    }
}

#[test]
fn skip_steps_over_the_score() {
    let s = Score::new(3);
    assert_eq!(s.skip(1), Score(1));
    assert_eq!(s.skip(2), Score(2));
    assert_eq!(s.skip(3), Score(4));
    assert_eq!(s.skip(5), Score(6));
}

#[test]
fn score_conversions() {
    assert_eq!(Score::from(5u8), Score(5));
    assert_eq!(u8::from(Score(2)), 2);
}

#[test]
fn die_data_accessors() {
    let mut d = DieData::new(3);
    assert!(!d.is_rolling());
    assert_eq!(d.value(), Some(Score(3)));
    assert!(d.bright());
    d.set_rolling().set_bright(false);
    assert!(d.is_rolling());
    assert_eq!(d.value(), None);
    assert!(!d.bright());
    d.set_value(Score(5));
    assert_eq!(d.value(), Some(Score(5)));
    assert!(!d.bright());
    assert_eq!(d.state, DieState::Value(Score(5)));
}

#[test]
fn die_score_shows_settled_or_rolling_value() {
    let die = Die::new();
    assert_eq!(die.score(&DieData::new(2)), Score(2));
    let mut rolling = DieData::new(2);
    rolling.set_rolling();
    let shown = die.score(&rolling);
    assert!(1 <= shown.0 && shown.0 <= 6);
}

#[test]
fn die_timer_ticks() {
    let mut die = Die::new();
    let mut data = DieData::new(1);
    data.set_rolling();
    assert_eq!(die.on_timer(7, &data), DieAction::Idle);
    die.set_timer(7);
    assert_eq!(die.on_timer(8, &data), DieAction::Idle);
    for _ in 0..50 {
        let before = die.score(&data);
        assert_eq!(die.on_timer(7, &data), DieAction::NextTick);
        let after = die.score(&data);
        assert_ne!(before, after);
        assert!(1 <= after.0 && after.0 <= 6);
    }
    data.set_value(Score(4));
    assert_eq!(die.on_timer(7, &data), DieAction::Repaint);
    assert_eq!(die.score(&data), Score(4));
}

#[test]
fn die_update_transitions() {
    let die = Die::new();
    let settled = DieData::new(2);
    let mut rolling = DieData::new(2);
    rolling.set_rolling();
    assert_eq!(die.update(&settled, &rolling), DieAction::StartTimer);
    assert_eq!(die.update(&rolling, &settled), DieAction::Idle);
    assert_eq!(die.update(&settled, &DieData::new(5)), DieAction::Repaint);
    assert_eq!(die.update(&rolling, &rolling), DieAction::Idle);
}

fn alice() -> YatzyState {
    YatzyState::Starting(StartingState {
        player_name: "Alice".to_string(),
    })
}

#[test]
fn start_game_sets_up_five_sixes() {
    let mut g = alice();
    g.start_game();
    match g {
        YatzyState::InGame(state) => {
            assert_eq!(state.player_name, "Alice");
            assert_eq!(state.dice, [DieData::new(6); 5]);
            for d in state.dice.iter() {
                assert_eq!(d.value(), Some(Score(6)));
            }
        }
        YatzyState::Starting(_) => panic!("the game did not start"),
    }
}

#[test]
fn roll_commands_ignored_before_start() {
    let mut g = alice();
    assert!(!g.command(GameCommand::Roll));
    assert!(!g.command(GameCommand::StopRoll(Score(2))));
    assert!(g.command(GameCommand::Other));
    match g {
        YatzyState::Starting(state) => assert_eq!(state.player_name, "Alice"),
        YatzyState::InGame(_) => panic!("the game started"),
    }
}

#[test]
fn roll_tick_then_stop_settles_first_die() {
    let mut g = alice();
    assert!(!g.command(GameCommand::StartGame));
    let mut die = Die::new();
    let before = match &g {
        YatzyState::InGame(state) => state.dice[0],
        YatzyState::Starting(_) => panic!("the game did not start"),
    };
    assert!(!g.command(GameCommand::Roll));
    let after = match &g {
        YatzyState::InGame(state) => state.dice[0],
        YatzyState::Starting(_) => panic!("the game did not start"),
    };
    assert!(after.is_rolling());
    assert_eq!(die.update(&before, &after), DieAction::StartTimer);
    die.set_timer(1);
    assert_eq!(die.on_timer(1, &after), DieAction::NextTick);
    assert!(!g.command(GameCommand::StopRoll(Score(4))));
    match g {
        YatzyState::InGame(state) => {
            assert_eq!(state.dice[0], DieData::new(4));
            assert_eq!(die.score(&state.dice[0]), Score(4));
        }
        YatzyState::Starting(_) => panic!("the game did not start"),
    }
}

#[test]
fn other_dice_untouched_by_roll_cycles() {
    let mut g = alice();
    g.start_game();
    if let YatzyState::InGame(state) = &mut g {
        state.dice[2].set_value(Score(3));
        state.dice[4].set_bright(false);
    }
    for i in 0u8..10 {
        assert!(!g.command(GameCommand::Roll));
        assert!(!g.command(GameCommand::StopRoll(Score(i % 6 + 1))));
    }
    match g {
        YatzyState::InGame(state) => {
            assert_eq!(state.dice[0], DieData::new(9 % 6 + 1));
            assert_eq!(state.dice[1], DieData::new(6));
            assert_eq!(state.dice[2], DieData::new(3));
            assert_eq!(state.dice[3], DieData::new(6));
            let mut dim = DieData::new(6);
            dim.set_bright(false);
            assert_eq!(state.dice[4], dim);
        }
        YatzyState::Starting(_) => panic!("the game did not start"),
    }
}
