//! The mathematical model of the store: an abstract game state and the
//! two pure functions that define the state machine, `event_allowed`
//! (which events may legally apply) and `apply_event` (what consuming an
//! event does).
//!
//! Every contract of the executable store is stated against this model,
//! so the validator and the reducer stay two independent pure functions
//! over one state type.

use vstd::prelude::*;

use crate::events::EndGameReason;
use crate::events::GameEventV;
use crate::events::PlayerId;
use crate::events::PlayerV;
use crate::events::Stage;
use crate::events::Tile;

verus! {

/// Mathematical view of a [`crate::GameState`].
#[verifier::ext_equal]
pub struct GameStateV {
    pub stage: Stage,
    pub board: Seq<Tile>,
    pub active_player_id: PlayerId,
    pub players: Seq<(PlayerId, PlayerV)>,
    pub history: Seq<GameEventV>,
}

/// Whether some roster entry carries the given id.
pub open spec fn has_player(players: Seq<(PlayerId, PlayerV)>, id: PlayerId) -> bool {
    exists|i: int| 0 <= i < players.len() && players[i].0 == id
}

/// The first roster entry carrying the given id, on a roster of at most
/// two players (the only rosters a well-formed state can hold).
pub open spec fn lookup_player(players: Seq<(PlayerId, PlayerV)>, id: PlayerId) -> Option<
    PlayerV,
> {
    if players.len() >= 1 && players[0].0 == id {
        Some(players[0].1)
    } else if players.len() >= 2 && players[1].0 == id {
        Some(players[1].1)
    } else {
        None
    }
}

/// The piece of the given player, if the roster knows the id.
pub open spec fn player_tile(players: Seq<(PlayerId, PlayerV)>, id: PlayerId) -> Option<Tile> {
    match lookup_player(players, id) {
        Some(p) => Some(p.piece),
        None => None,
    }
}

/// The piece the given player places; `Empty` if the player is unknown.
pub open spec fn piece_of(players: Seq<(PlayerId, PlayerV)>, id: PlayerId) -> Tile {
    match lookup_player(players, id) {
        Some(p) => p.piece,
        None => Tile::Empty,
    }
}

/// The roster position of the given player on a two-entry roster.
pub open spec fn player_index(players: Seq<(PlayerId, PlayerV)>, id: PlayerId) -> int {
    if players.len() >= 1 && players[0].0 == id {
        0
    } else {
        1
    }
}

/// On a roster of exactly two players, the id of the one that is not
/// `id`; meaningful only under those conditions.
pub open spec fn opponent_of(players: Seq<(PlayerId, PlayerV)>, id: PlayerId) -> PlayerId {
    if players.len() == 2 {
        if players[0].0 == id {
            players[1].0
        } else {
            players[0].0
        }
    } else {
        id
    }
}

/// The piece a joining player is assigned: the first player to join
/// places `Tic`, any later one places `Tac`.
pub open spec fn joining_piece(players: Seq<(PlayerId, PlayerV)>) -> Tile {
    if players.len() > 0 {
        Tile::Tac
    } else {
        Tile::Tic
    }
}

impl GameStateV {
    /// Well-formedness of a state: the board has exactly nine cells, the
    /// roster holds at most two players, and no id appears on it twice.
    pub open spec fn wf(self) -> bool {
        &&& self.board.len() == 9
        &&& self.players.len() <= 2
        &&& forall|i: int, j: int|
            0 <= i < j < self.players.len() ==> self.players[i].0 != self.players[j].0
    }
}

/// The state every match starts from: pre-game, an empty board, no
/// players, no history.
pub open spec fn initial_state() -> GameStateV {
    GameStateV {
        stage: Stage::PreGame,
        board: Seq::new(9, |i: int| Tile::Empty),
        active_player_id: 0,
        players: Seq::empty(),
        history: Seq::empty(),
    }
}

/// The tile of a completed line: the three cells at `a`, `b`, `c` hold
/// the same non-empty mark.
pub open spec fn line_tile(board: Seq<Tile>, a: int, b: int, c: int) -> Option<Tile> {
    if board[a] == board[b] && board[b] == board[c] && board[a] != Tile::Empty {
        Some(board[a])
    } else {
        None
    }
}

/// The first roster player owning the given piece, on a roster of at
/// most two players.
pub open spec fn owner_of(players: Seq<(PlayerId, PlayerV)>, t: Tile) -> Option<PlayerId> {
    if players.len() >= 1 && players[0].1.piece == t {
        Some(players[0].0)
    } else if players.len() >= 2 && players[1].1.piece == t {
        Some(players[1].0)
    } else {
        None
    }
}

/// The player that wins by the line `a`, `b`, `c`: the line is complete
/// and some player owns its tile.
pub open spec fn line_winner(s: GameStateV, a: int, b: int, c: int) -> Option<PlayerId> {
    match line_tile(s.board, a, b, c) {
        Some(t) => owner_of(s.players, t),
        None => None,
    }
}

/// The first of two candidate results, preferring the first when both
/// are present.
pub open spec fn first_some(a: Option<PlayerId>, b: Option<PlayerId>) -> Option<PlayerId> {
    if a is Some {
        a
    } else {
        b
    }
}

/// The winner of the match, if any: the eight canonical lines are
/// scanned rows first, then columns, then diagonals, and the first
/// completed line with an owning player decides.
pub open spec fn winner_of(s: GameStateV) -> Option<PlayerId> {
    first_some(
        line_winner(s, 0, 1, 2),
        first_some(
            line_winner(s, 3, 4, 5),
            first_some(
                line_winner(s, 6, 7, 8),
                first_some(
                    line_winner(s, 0, 3, 6),
                    first_some(
                        line_winner(s, 1, 4, 7),
                        first_some(
                            line_winner(s, 2, 5, 8),
                            first_some(line_winner(s, 0, 4, 8), line_winner(s, 2, 4, 6)),
                        ),
                    ),
                ),
            ),
        ),
    )
}

/// The validator: whether `e` may legally apply to `s`. A pure function
/// of the pair, so validation is repeatable and side-effect free.
pub open spec fn event_allowed(s: GameStateV, e: GameEventV) -> bool {
    match e {
        GameEventV::BeginGame { goes_first } => {
            &&& s.stage == Stage::PreGame
            &&& has_player(s.players, goes_first)
        },
        GameEventV::EndGame { reason } => match reason {
            EndGameReason::PlayerWon { .. } => s.stage == Stage::InGame,
            EndGameReason::PlayerLeft { .. } => true,
        },
        GameEventV::PlayerJoined { player_id, .. } => {
            &&& !has_player(s.players, player_id)
            &&& s.players.len() < 2
        },
        GameEventV::PlayerDisconnected { player_id } => has_player(s.players, player_id),
        GameEventV::PlaceTile { player_id, at } => {
            &&& has_player(s.players, player_id)
            &&& s.active_player_id == player_id
            &&& at < 9
            &&& s.board[at as int] == Tile::Empty
            &&& s.players.len() == 2
        },
    }
}

/// The reducer: the state after consuming `e` in state `s`. Meaningful
/// when `event_allowed(s, e)` holds; the consumed event is always
/// appended to the history as the last step.
pub open spec fn apply_event(s: GameStateV, e: GameEventV) -> GameStateV {
    let stepped = match e {
        GameEventV::BeginGame { goes_first } => GameStateV {
            stage: Stage::InGame,
            active_player_id: goes_first,
            ..s
        },
        GameEventV::EndGame { .. } => GameStateV { stage: Stage::Ended, ..s },
        GameEventV::PlayerJoined { player_id, name } => GameStateV {
            players: s.players.push(
                (player_id, PlayerV { name, piece: joining_piece(s.players) }),
            ),
            ..s
        },
        GameEventV::PlayerDisconnected { player_id } => GameStateV {
            players: s.players.remove(player_index(s.players, player_id)),
            ..s
        },
        GameEventV::PlaceTile { player_id, at } => GameStateV {
            board: s.board.update(at as int, piece_of(s.players, player_id)),
            active_player_id: opponent_of(s.players, player_id),
            ..s
        },
    };
    GameStateV { history: s.history.push(e), ..stepped }
}

} // verus!
