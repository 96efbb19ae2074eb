//! The vocabulary of state transitions: tiles, stages, players and the
//! closed set of game events.
//!
//! Events are immutable once constructed and are the sole unit of state
//! change: a [`crate::GameState`] only ever moves forward by consuming a
//! [`GameEvent`]. Each executable type has a mathematical view (`PlayerV`,
//! `GameEventV`) over which all contracts are stated.

use vstd::prelude::*;

verus! {

/// A mark a player places on the board, or the absence of one.
///
/// The two marks of this game are called `Tic` and `Tac`; a board cell
/// nobody has claimed yet holds `Empty`. A player's assigned piece is
/// always one of the two non-empty kinds.
#[derive(Clone, Copy, Debug, PartialEq, Eq, Structural)]
pub enum Tile {
    Empty,
    Tic,
    Tac,
}

/// The phase a match is in; it governs which events are legal.
#[derive(Clone, Copy, Debug, PartialEq, Eq, Structural)]
pub enum Stage {
    PreGame,
    InGame,
    Ended,
}

/// An opaque identifier for a connection, supplied by the transport
/// layer; the store never makes these up itself.
pub type PlayerId = u64;

/// Player data owned by the game state: a display name and the piece the
/// player places. The piece is assigned at join time and never changes.
#[derive(Debug)]
pub struct Player {
    pub name: String,
    pub piece: Tile,
}

/// Mathematical view of a [`Player`].
pub struct PlayerV {
    pub name: Seq<char>,
    pub piece: Tile,
}

impl View for Player {
    type V = PlayerV;

    open spec fn view(&self) -> PlayerV {
        PlayerV { name: self.name@, piece: self.piece }
    }
}

impl Clone for Player {
    fn clone(&self) -> (r: Self)
        ensures
            r@ == self@,
    {
        Player { name: self.name.clone(), piece: self.piece }
    }
}

/// Why a game ended: a player left mid-match, or a player completed a
/// winning line.
#[derive(Clone, Copy, Debug, PartialEq, Eq, Structural)]
pub enum EndGameReason {
    PlayerLeft { player_id: PlayerId },
    PlayerWon { winner: PlayerId },
}

/// An event that moves a [`crate::GameState`] forward.
///
/// `PlaceTile` deliberately carries no piece: the mark written to the
/// board is derived from the acting player's assigned piece, so a peer
/// cannot place a mark that is not its own.
#[derive(Debug)]
pub enum GameEvent {
    BeginGame { goes_first: PlayerId },
    EndGame { reason: EndGameReason },
    PlayerJoined { player_id: PlayerId, name: String },
    PlayerDisconnected { player_id: PlayerId },
    PlaceTile { player_id: PlayerId, at: usize },
}

/// Mathematical view of a [`GameEvent`].
pub enum GameEventV {
    BeginGame { goes_first: PlayerId },
    EndGame { reason: EndGameReason },
    PlayerJoined { player_id: PlayerId, name: Seq<char> },
    PlayerDisconnected { player_id: PlayerId },
    PlaceTile { player_id: PlayerId, at: usize },
}

impl View for GameEvent {
    type V = GameEventV;

    open spec fn view(&self) -> GameEventV {
        match self {
            GameEvent::BeginGame { goes_first } => GameEventV::BeginGame { goes_first: *goes_first },
            GameEvent::EndGame { reason } => GameEventV::EndGame { reason: *reason },
            GameEvent::PlayerJoined { player_id, name } => GameEventV::PlayerJoined {
                player_id: *player_id,
                name: name@,
            },
            GameEvent::PlayerDisconnected { player_id } => GameEventV::PlayerDisconnected {
                player_id: *player_id,
            },
            GameEvent::PlaceTile { player_id, at } => GameEventV::PlaceTile {
                player_id: *player_id,
                at: *at,
            },
        }
    }
}

impl Clone for GameEvent {
    fn clone(&self) -> (r: Self)
        ensures
            r@ == self@,
    {
        match self {
            GameEvent::BeginGame { goes_first } => GameEvent::BeginGame { goes_first: *goes_first },
            GameEvent::EndGame { reason } => GameEvent::EndGame { reason: *reason },
            GameEvent::PlayerJoined { player_id, name } => GameEvent::PlayerJoined {
                player_id: *player_id,
                name: name.clone(),
            },
            GameEvent::PlayerDisconnected { player_id } => GameEvent::PlayerDisconnected {
                player_id: *player_id,
            },
            GameEvent::PlaceTile { player_id, at } => GameEvent::PlaceTile {
                player_id: *player_id,
                at: *at,
            },
        }
    }
}

} // verus!
