use vstd::prelude::*;

use crate::codec::GameCommand;
use crate::mountain_car::Phase;

verus! {

/// What the game server does with one command it received.
#[derive(Debug, Clone, Copy, PartialEq, Eq, Structural)]
pub enum EngineAction {
    /// Play action `a` on the running game.
    Step(usize),
    /// Stop serving the game.
    Exit,
    /// Leave the game as it is.
    Ignore,
}

/// The server's answer to `cmd` in `phase`: a command that carries an action
/// plays it while the game runs and is ignored once it is finished, whatever
/// its exit flag says; a command without an action stops the server when its
/// exit flag is set; anything else is ignored.
pub open spec fn engine_response(cmd: GameCommand, phase: Phase) -> EngineAction {
    match cmd.a {
        Some(a) => if phase is Running {
            EngineAction::Step(a)
        } else {
            EngineAction::Ignore
        },
        None => if cmd.exit_game == Some(true) {
            EngineAction::Exit
        } else {
            EngineAction::Ignore
        },
    }
}

/// Decides what the server does with `cmd` while the game is in `phase`.
pub fn decide(cmd: &GameCommand, phase: &Phase) -> (action: EngineAction)
    ensures
        action == engine_response(*cmd, *phase),
        cmd.a matches Some(a) ==> action == if *phase is Running {
            EngineAction::Step(a)
        } else {
            EngineAction::Ignore
        },
        cmd.a is None ==> (action == EngineAction::Exit <==> cmd.exit_game == Some(true)),
        cmd.a is None && cmd.exit_game != Some(true) ==> action == EngineAction::Ignore,
{
    match cmd.a {
        Some(a) => if phase.is_running() {
            EngineAction::Step(a)
        } else {
            EngineAction::Ignore
        },
        None => match cmd.exit_game {
            Some(true) => EngineAction::Exit,
            _ => EngineAction::Ignore,
        },
    }
}

/// A client's move command is played while the game runs, and ignored once
/// the game is finished.
pub proof fn lemma_move_command_is_played(a: usize, phase: Phase)
    ensures
        engine_response(
            GameCommand { a: Some(a), exit_game: None },
            phase,
        ) == if phase is Running {
            EngineAction::Step(a)
        } else {
            EngineAction::Ignore
        },
{
}

/// The server plays an action only when one was sent and the game runs, and
/// it stops only on a command without an action and with the exit flag set.
pub proof fn lemma_engine_response_cases(cmd: GameCommand, phase: Phase)
    ensures
        engine_response(cmd, phase) matches EngineAction::Step(a) ==> cmd.a == Some(a)
            && phase is Running,
        engine_response(cmd, phase) == EngineAction::Exit <==> (cmd.a is None && cmd.exit_game
            == Some(true)),
        (cmd.a is Some && phase is Running) ==> engine_response(cmd, phase) is Step,
{
}

/// The exit command stops the server in every phase of the game.
pub proof fn lemma_exit_command_stops(phase: Phase)
    ensures
        engine_response(GameCommand { a: None, exit_game: Some(true) }, phase)
            == EngineAction::Exit,
{
}

} // verus!
