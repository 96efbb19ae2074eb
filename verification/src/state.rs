//! The authoritative game state and its operations: the validator, the
//! reducer, the win detector and the player lookup.
//!
//! Every operation's contract is stated against the model in
//! [`crate::model`]: `validate` returns exactly `event_allowed`, and
//! `consume` produces exactly `apply_event` of the old state.

use vstd::prelude::*;

use crate::events::EndGameReason;
use crate::events::GameEvent;
use crate::events::Player;
use crate::events::PlayerV;
use crate::events::PlayerId;
use crate::events::Stage;
use crate::events::Tile;
use crate::model::GameStateV;
use crate::model::apply_event;
use crate::model::event_allowed;
use crate::model::has_player;
use crate::model::initial_state;
use crate::model::joining_piece;
use crate::model::line_winner;
use crate::model::opponent_of;
use crate::model::owner_of;
use crate::model::piece_of;
use crate::model::player_index;
use crate::model::player_tile;
use crate::model::winner_of;

verus! {

/// A game state able to keep track of one tic-tac-toe match.
///
/// The board is nine cells in row-major order (index = column + row * 3).
/// The roster keeps players in join order, which is what assigns the
/// first joiner `Tic` and the second `Tac`; ids on it are unique and it
/// never holds more than two entries while the state is only mutated
/// through `consume`.
#[derive(Debug)]
pub struct GameState {
    pub stage: Stage,
    pub board: [Tile; 9],
    pub active_player_id: PlayerId,
    pub players: Vec<(PlayerId, Player)>,
    pub history: Vec<GameEvent>,
}

impl View for GameState {
    type V = GameStateV;

    open spec fn view(&self) -> GameStateV {
        GameStateV {
            stage: self.stage,
            board: self.board@,
            active_player_id: self.active_player_id,
            players: self.players@.map_values(|p: (PlayerId, Player)| (p.0, p.1@)),
            history: self.history@.map_values(|e: GameEvent| e@),
        }
    }
}

impl Default for GameState {
    /// A fresh match: pre-game, empty board, no players, no history.
    fn default() -> (r: Self)
        ensures
            r@ == initial_state(),
            r@.wf(),
    {
        let r = GameState {
            stage: Stage::PreGame,
            board: [
                Tile::Empty,
                Tile::Empty,
                Tile::Empty,
                Tile::Empty,
                Tile::Empty,
                Tile::Empty,
                Tile::Empty,
                Tile::Empty,
                Tile::Empty,
            ],
            active_player_id: 0,
            players: Vec::new(),
            history: Vec::new(),
        };
        proof {
            assert(r@.board =~= initial_state().board);
            assert(r@.players =~= initial_state().players);
            assert(r@.history =~= initial_state().history);
            assert(r@ =~= initial_state());
        }
        r
    }
}

impl GameState {
    /// Whether the roster knows the given player id.
    fn contains_player(&self, id: PlayerId) -> (r: bool)
        ensures
            r == has_player(self@.players, id),
    {
        let n = self.players.len();
        let mut i: usize = 0;
        while i < n
            invariant
                n == self.players.len(),
                i <= n,
                forall|j: int| 0 <= j < i ==> self@.players[j].0 != id,
            decreases n - i,
        {
            if self.players[i].0 == id {
                assert(self@.players[i as int].0 == id);
                return true;
            }
            i += 1;
        }
        false
    }

    /// The validator: whether `event` may legally apply to this state.
    ///
    /// A pure function of `(state, event)`: it never mutates the state,
    /// and two calls on the same pair return the same boolean. Joining is
    /// capped at two players, and placing a tile asks for a full roster,
    /// so the reducer can always find the opponent to pass the turn to.
    pub fn validate(&self, event: &GameEvent) -> (r: bool)
        ensures
            r == event_allowed(self@, event@),
    {
        match event {
            GameEvent::BeginGame { goes_first } => {
                self.stage == Stage::PreGame && self.contains_player(*goes_first)
            },
            GameEvent::EndGame { reason } => match reason {
                EndGameReason::PlayerWon { winner: _ } => {
                    self.stage == Stage::InGame
                },
                EndGameReason::PlayerLeft { player_id: _ } => true,
            },
            GameEvent::PlayerJoined { player_id, name: _ } => {
                !self.contains_player(*player_id) && self.players.len() < 2
            },
            GameEvent::PlayerDisconnected { player_id } => self.contains_player(*player_id),
            GameEvent::PlaceTile { player_id, at } => {
                if !self.contains_player(*player_id) {
                    return false;
                }
                if self.active_player_id != *player_id {
                    return false;
                }
                if *at > 8 {
                    return false;
                }
                if self.players.len() != 2 {
                    return false;
                }
                self.board[*at] == Tile::Empty
            },
        }
    }

    /// The piece of the given player, if the player is known to this
    /// state.
    pub fn get_player_tile(&self, player_id: &PlayerId) -> (r: Option<Tile>)
        requires
            self@.wf(),
        ensures
            r == player_tile(self@.players, *player_id),
    {
        let n = self.players.len();
        let mut i: usize = 0;
        while i < n
            invariant
                self@.wf(),
                n == self.players.len(),
                i <= n,
                forall|j: int| 0 <= j < i ==> self@.players[j].0 != *player_id,
            decreases n - i,
        {
            if self.players[i].0 == *player_id {
                return Some(self.players[i].1.piece);
            }
            i += 1;
        }
        None
    }

    /// The reducer: consume an already-validated event, mutating the
    /// state and appending the event to the history.
    ///
    /// Callers guarantee validate-then-consume ordering with no state
    /// mutation in between; consume itself re-checks nothing.
    pub fn consume(&mut self, valid_event: &GameEvent)
        requires
            old(self)@.wf(),
            event_allowed(old(self)@, valid_event@),
        ensures
            final(self)@ == apply_event(old(self)@, valid_event@),
            final(self)@.wf(),
    {
        let ghost ov: GameStateV = self@;
        match valid_event {
            GameEvent::BeginGame { goes_first } => {
                self.active_player_id = *goes_first;
                self.stage = Stage::InGame;
            },
            GameEvent::EndGame { reason: _ } => {
                self.stage = Stage::Ended;
            },
            GameEvent::PlayerJoined { player_id, name } => {
                let piece = if self.players.len() > 0 {
                    Tile::Tac
                } else {
                    Tile::Tic
                };
                self.players.push((*player_id, Player { name: name.clone(), piece }));
                proof {
                    assert(self@.players =~= ov.players.push(
                        (valid_event@->PlayerJoined_player_id, PlayerV {
                            name: valid_event@->PlayerJoined_name,
                            piece: joining_piece(ov.players),
                        }),
                    ));
                }
            },
            GameEvent::PlayerDisconnected { player_id } => {
                let k: usize = if self.players[0].0 == *player_id {
                    0
                } else {
                    1
                };
                assert(k == player_index(ov.players, *player_id));
                self.players.remove(k);
                proof {
                    assert(self@.players =~= ov.players.remove(
                        player_index(ov.players, *player_id),
                    ));
                }
            },
            GameEvent::PlaceTile { player_id, at } => {
                let piece = self.get_player_tile(player_id).unwrap();
                assert(piece == piece_of(ov.players, *player_id));
                self.board[*at] = piece;
                let other: PlayerId = if self.players[0].0 != *player_id {
                    self.players[0].0
                } else {
                    self.players[1].0
                };
                assert(other == opponent_of(ov.players, *player_id));
                self.active_player_id = other;
            },
        }
        self.history.push(valid_event.clone());
        proof {
            assert(self@.history =~= ov.history.push(valid_event@));
            assert(self@ =~= apply_event(ov, valid_event@));
        }
    }

    /// The first roster player owning the given piece.
    fn owner_of_piece(&self, t: Tile) -> (r: Option<PlayerId>)
        requires
            self@.wf(),
        ensures
            r == owner_of(self@.players, t),
    {
        let n = self.players.len();
        let mut i: usize = 0;
        while i < n
            invariant
                self@.wf(),
                n == self.players.len(),
                i <= n,
                forall|j: int| 0 <= j < i ==> self@.players[j].1.piece != t,
            decreases n - i,
        {
            if self.players[i].1.piece == t {
                return Some(self.players[i].0);
            }
            i += 1;
        }
        None
    }

    /// The player that wins by the line `a`, `b`, `c`, if the three
    /// cells hold the same non-empty mark that some player owns.
    fn line_owner(&self, a: usize, b: usize, c: usize) -> (r: Option<PlayerId>)
        requires
            self@.wf(),
            a < 9,
            b < 9,
            c < 9,
        ensures
            r == line_winner(self@, a as int, b as int, c as int),
    {
        let t = self.board[a];
        if self.board[b] == t && self.board[c] == t && t != Tile::Empty {
            self.owner_of_piece(t)
        } else {
            None
        }
    }

    /// The win detector: scan the three rows, the three columns and the
    /// two diagonals for a completed line, and resolve the winning line's
    /// tile to the player owning that piece. There is no draw outcome: a
    /// full board without a completed line is simply no winner.
    pub fn determine_winner(&self) -> (r: Option<PlayerId>)
        requires
            self@.wf(),
        ensures
            r == winner_of(self@),
    {
        if let Some(w) = self.line_owner(0, 1, 2) {
            return Some(w);
        }
        if let Some(w) = self.line_owner(3, 4, 5) {
            return Some(w);
        }
        if let Some(w) = self.line_owner(6, 7, 8) {
            return Some(w);
        }
        if let Some(w) = self.line_owner(0, 3, 6) {
            return Some(w);
        }
        if let Some(w) = self.line_owner(1, 4, 7) {
            return Some(w);
        }
        if let Some(w) = self.line_owner(2, 5, 8) {
            return Some(w);
        }
        if let Some(w) = self.line_owner(0, 4, 8) {
            return Some(w);
        }
        if let Some(w) = self.line_owner(2, 4, 6) {
            return Some(w);
        }
        None
    }

    /// The authoritative actor's step: validate, and consume only when
    /// the event is legal. Returns whether the event was accepted, which
    /// is also the signal to relay it to the participants.
    pub fn dispatch(&mut self, event: &GameEvent) -> (accepted: bool)
        requires
            old(self)@.wf(),
        ensures
            accepted == event_allowed(old(self)@, event@),
            accepted ==> final(self)@ == apply_event(old(self)@, event@),
            !accepted ==> final(self)@ == old(self)@,
            final(self)@.wf(),
    {
        if self.validate(event) {
            self.consume(event);
            true
        } else {
            false
        }
    }
}

impl GameEvent {
    /// Whether this event may legally apply to the given state; the
    /// event-side way to ask the validator.
    pub fn is_valid_on(&self, state: &GameState) -> (r: bool)
        ensures
            r == event_allowed(state@, self@),
    {
        state.validate(self)
    }
}

} // verus!
