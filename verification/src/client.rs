use vstd::prelude::*;

use crate::codec::GameCommand;
use crate::engine::{engine_response, EngineAction};
use crate::mountain_car::{Phase, EPISODE_STEP_LIMIT};

verus! {

/// How a mountain-car client answers a game state that the server reported.
#[derive(Debug, Clone, Copy, PartialEq, Eq, Structural)]
pub struct ClientReaction {
    /// The episode has ended for the client.
    pub finished: bool,
    /// The command to send back to the server, if any.
    pub command: Option<GameCommand>,
}

/// The exit command, as a value.
pub open spec fn exit_command() -> GameCommand {
    GameCommand { a: None, exit_game: Some(true) }
}

/// A client ends the episode when the server reports the game finished, and
/// then asks the server to stop; while the game runs it asks the server to
/// stop exactly when the step limit is reached, and goes on.
pub open spec fn client_response(report: Phase) -> ClientReaction {
    match report {
        Phase::Finished { .. } => ClientReaction { finished: true, command: Some(exit_command()) },
        Phase::Running { step } => ClientReaction {
            finished: false,
            command: if step == EPISODE_STEP_LIMIT {
                Some(exit_command())
            } else {
                None
            },
        },
    }
}

/// Decides how the client answers the game state `report`.
pub fn react(report: &Phase) -> (reaction: ClientReaction)
    ensures
        reaction == client_response(*report),
        reaction.finished <==> *report is Finished,
        reaction.command matches Some(cmd) ==> cmd.a == None::<usize> && cmd.exit_game == Some(true),
        reaction.command is Some <==> (*report is Finished || report.steps() == EPISODE_STEP_LIMIT),
{
    match report {
        Phase::Finished { .. } => ClientReaction { finished: true, command: Some(GameCommand::exit()) },
        Phase::Running { step } => ClientReaction {
            finished: false,
            command: if *step == EPISODE_STEP_LIMIT {
                Some(GameCommand::exit())
            } else {
                None
            },
        },
    }
}

/// The client declares the episode over exactly when the server reports the
/// game finished; a running game, at any step, goes on.
pub proof fn lemma_client_finishes_only_on_finish(report: Phase)
    ensures
        client_response(report).finished <==> report is Finished,
        report matches Phase::Running { step } ==> !client_response(report).finished,
{
}

/// Whatever a client sends back to a reported game state stops the server:
/// a finished game, or one that reached the step limit, is not served on.
pub proof fn lemma_client_command_stops_server(report: Phase, phase: Phase)
    ensures
        client_response(report).command matches Some(cmd) ==> engine_response(cmd, phase)
            == EngineAction::Exit,
        client_response(report).command is Some <==> (report is Finished || report.steps()
            == EPISODE_STEP_LIMIT),
        client_response(report).command matches Some(cmd) ==> cmd.a == None::<usize>
            && cmd.exit_game == Some(true),
{
}

} // verus!
