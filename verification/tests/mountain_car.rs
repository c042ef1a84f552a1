use rsrl_game::client::ClientReaction;
use rsrl_game::{action_direction, decide, react, EngineAction, GameCommand, Phase, EPISODE_STEP_LIMIT};

#[test]
fn new_game_runs_without_moves() {
    let phase = Phase::start();
    assert_eq!(phase, Phase::Running { step: 0 });
    assert!(phase.is_running());
    assert_eq!(phase.step_count(), 0);
}

#[test]
fn move_away_from_goal_counts_one_step() {
    assert_eq!(Phase::Running { step: 41 }.advance(false), Phase::Running { step: 42 });
}

#[test]
fn move_at_goal_finishes_with_step_count() {
    let done = Phase::Running { step: 17 }.advance(true);
    assert_eq!(done, Phase::Finished { step: 17 });
    assert!(!done.is_running());
    assert_eq!(done.step_count(), 17);
    assert_eq!(done.advance(false), done);
    assert_eq!(done.advance(true), done);
}

#[test]
fn steps_count_moves_from_start() {
    let mut phase = Phase::start();
    for _ in 0..EPISODE_STEP_LIMIT {
        phase = phase.advance(false);
    }
    assert_eq!(phase, Phase::Running { step: 1000 });
}

#[test]
fn actions_push_left_coast_right() {
    assert_eq!(action_direction(0), -1);
    assert_eq!(action_direction(1), 0);
    assert_eq!(action_direction(2), 1);
}

#[test]
fn engine_plays_move_while_running() {
    let cmd = GameCommand::new(1);
    assert_eq!(decide(&cmd, &Phase::Running { step: 5 }), EngineAction::Step(1));
}

#[test]
fn engine_ignores_move_when_finished() {
    let cmd = GameCommand::new(1);
    assert_eq!(decide(&cmd, &Phase::Finished { step: 5 }), EngineAction::Ignore);
}

#[test]
fn engine_stops_on_exit_in_every_phase() {
    let cmd = GameCommand::exit();
    assert_eq!(decide(&cmd, &Phase::Running { step: 0 }), EngineAction::Exit);
    assert_eq!(decide(&cmd, &Phase::Finished { step: 9 }), EngineAction::Exit);
}

#[test]
fn engine_move_wins_over_exit_flag() {
    let cmd = GameCommand { a: Some(0), exit_game: Some(true) };
    assert_eq!(decide(&cmd, &Phase::Running { step: 3 }), EngineAction::Step(0));
    assert_eq!(decide(&cmd, &Phase::Finished { step: 3 }), EngineAction::Ignore);
}

#[test]
fn engine_ignores_empty_command() {
    let cmd = GameCommand { a: None, exit_game: Some(false) };
    assert_eq!(decide(&cmd, &Phase::Running { step: 3 }), EngineAction::Ignore);
    let cmd = GameCommand { a: None, exit_game: None };
    assert_eq!(decide(&cmd, &Phase::Running { step: 3 }), EngineAction::Ignore);
}

#[test]
fn client_goes_on_while_running() {
    let reaction = react(&Phase::Running { step: 12 });
    assert_eq!(reaction, ClientReaction { finished: false, command: None });
}

#[test]
fn client_stops_server_at_step_limit() {
    let reaction = react(&Phase::Running { step: 1000 });
    assert!(!reaction.finished);
    assert_eq!(reaction.command, Some(GameCommand::exit()));
    let reaction = react(&Phase::Running { step: 1001 });
    assert_eq!(reaction.command, None);
}

#[test]
fn client_finishes_and_stops_server() {
    let reaction = react(&Phase::Finished { step: 120 });
    assert!(reaction.finished);
    let cmd = reaction.command.expect("a finished game is answered");
    assert_eq!(decide(&cmd, &Phase::Finished { step: 120 }), EngineAction::Exit);
}
