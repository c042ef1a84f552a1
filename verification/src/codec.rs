use vstd::prelude::*;

verus! {

/// The seat that a player takes at a table.
#[derive(Debug, Clone)]
pub struct TableInfo {
    pub player: String,
}

impl TableInfo {
    /// A table seat for the named player.
    pub fn new(player: String) -> (info: TableInfo)
        ensures
            info.player@ == player@,
    {
        TableInfo { player }
    }
}

/// A command that a client sends to the game server: an action to play,
/// or the request to leave the game.
#[derive(Debug, Clone, Copy, PartialEq, Eq, Structural)]
pub struct GameCommand {
    pub a: Option<usize>,
    pub exit_game: Option<bool>,
}

impl GameCommand {
    /// The command that plays action `a`.
    pub fn new(a: usize) -> (cmd: GameCommand)
        ensures
            cmd.a == Some(a),
            cmd.exit_game == None::<bool>,
    {
        GameCommand { a: Some(a), exit_game: None }
    }

    /// The command that asks the server to end the game: no action, and the
    /// exit flag set.
    pub fn exit() -> (cmd: GameCommand)
        ensures
            cmd.a == None::<usize>,
            cmd.exit_game == Some(true),
    {
        let mut cmd = GameCommand::new(0);
        cmd.a = None;
        cmd.exit_game = Some(true);
        cmd
    }
}

/// Why a client could not reach the game server.
#[derive(Debug, Clone, Copy, PartialEq, Eq, Structural)]
pub enum ConnectionError {
    NotConnectedToInternet,
    CannotFindServer,
    InvalidDestination,
}

/// The state of a client's connection to the game server.
#[derive(Debug, Clone, Copy, PartialEq, Eq, Structural)]
pub enum ConnectionStatus {
    /// No connection has been attempted yet.
    Idle,
    Try,
    Error(ConnectionError),
    /// The connection stands.
    Connected,
}

} // verus!
