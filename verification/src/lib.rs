//! Game logic of a mountain-car game served to learning agents, and of a
//! card-game bot that plays against a table server.
//!
//! The messages that travel between the game server and its clients are
//! plain values here; their JSON form is produced around the library.
pub mod bot;
pub mod client;
pub mod codec;
pub mod engine;
pub mod mountain_car;

pub use codec::{ConnectionError, ConnectionStatus, GameCommand, TableInfo};
pub use client::{react, ClientReaction};
pub use engine::{decide, EngineAction};
pub use mountain_car::{action_direction, Phase, EPISODE_STEP_LIMIT, NUM_ACTIONS};
