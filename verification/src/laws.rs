//! Laws of the store: properties that hold of every state and every
//! legal event, proved once and for all against the model in
//! [`crate::model`].
//!
//! Because `validate` returns exactly `event_allowed` and `consume`
//! produces exactly `apply_event`, each law transfers directly to the
//! executable store.

use vstd::prelude::*;

use crate::events::GameEventV;
use crate::events::PlayerId;
use crate::events::Tile;
use crate::model::GameStateV;
use crate::model::apply_event;
use crate::model::event_allowed;
use crate::model::has_player;
use crate::model::piece_of;
use crate::model::player_index;
use crate::model::player_tile;
use crate::model::winner_of;

verus! {

/// Consuming a legal event preserves well-formedness: the board keeps
/// its nine cells, the roster never exceeds two players and ids on it
/// stay unique.
pub proof fn lemma_apply_preserves_wf(s: GameStateV, e: GameEventV)
    requires
        s.wf(),
        event_allowed(s, e),
    ensures
        apply_event(s, e).wf(),
{
}

/// Consuming a legal `PlaceTile` writes the acting player's own piece
/// into the chosen cell; the event itself carries no piece that could
/// contradict it.
pub proof fn lemma_place_tile_marks_cell(s: GameStateV, player_id: PlayerId, at: usize)
    requires
        s.wf(),
        event_allowed(s, GameEventV::PlaceTile { player_id, at }),
    ensures
        apply_event(s, GameEventV::PlaceTile { player_id, at }).board[at as int] == piece_of(
            s.players,
            player_id,
        ),
{
}

/// An occupied cell never changes again: no legal event rewrites a cell
/// that already holds a mark, so a placed piece remains on the board in
/// every subsequent state of the match.
pub proof fn lemma_occupied_cell_persists(s: GameStateV, e: GameEventV, i: int)
    requires
        s.wf(),
        event_allowed(s, e),
        0 <= i < 9,
        s.board[i] != Tile::Empty,
    ensures
        apply_event(s, e).board[i] == s.board[i],
{
}

/// Every consumed event, whatever its kind, is appended to the history
/// as its new last entry; the history is never pruned or reordered.
pub proof fn lemma_consume_appends_history(s: GameStateV, e: GameEventV)
    ensures
        apply_event(s, e).history == s.history.push(e),
{
}

/// The state after consuming a whole sequence of events, first to last.
pub open spec fn apply_events(s: GameStateV, es: Seq<GameEventV>) -> GameStateV
    decreases es.len(),
{
    if es.len() == 0 {
        s
    } else {
        apply_events(apply_event(s, es[0]), es.drop_first())
    }
}

/// After consuming a sequence of `n` events the history has grown by
/// exactly those `n` events, in consume order.
pub proof fn lemma_history_of_run(s: GameStateV, es: Seq<GameEventV>)
    ensures
        apply_events(s, es).history == s.history + es,
    decreases es.len(),
{
    if es.len() == 0 {
        assert(apply_events(s, es).history =~= s.history + es);
    } else {
        let s1 = apply_event(s, es[0]);
        lemma_history_of_run(s1, es.drop_first());
        assert(apply_events(s, es).history =~= s.history + es);
    }
}

/// Whether a whole sequence of events is a legal run: each event is
/// allowed in the state the ones before it produced.
pub open spec fn events_allowed(s: GameStateV, es: Seq<GameEventV>) -> bool
    decreases es.len(),
{
    es.len() == 0 || (event_allowed(s, es[0]) && events_allowed(
        apply_event(s, es[0]),
        es.drop_first(),
    ))
}

/// A legal run keeps the state well formed, however long it is: this is
/// what lets a mirror apply server-validated events indefinitely.
pub proof fn lemma_run_preserves_wf(s: GameStateV, es: Seq<GameEventV>)
    requires
        s.wf(),
        events_allowed(s, es),
    ensures
        apply_events(s, es).wf(),
    decreases es.len(),
{
    if es.len() > 0 {
        lemma_apply_preserves_wf(s, es[0]);
        lemma_run_preserves_wf(apply_event(s, es[0]), es.drop_first());
    }
}

/// A detected winner is always a player the state knows.
pub proof fn lemma_winner_is_roster_player(s: GameStateV, w: PlayerId)
    requires
        winner_of(s) == Some(w),
    ensures
        has_player(s.players, w),
{
}

/// Two-player alternation: with exactly the players `a` and `b` on the
/// roster and `a` to move, a legal `PlaceTile` by `a` passes the turn to
/// `b` — and, by instantiating the ids the other way round, vice versa.
pub proof fn lemma_turn_alternates(s: GameStateV, a: PlayerId, b: PlayerId, at: usize)
    requires
        s.wf(),
        s.players.len() == 2,
        s.players[0].0 == a || s.players[1].0 == a,
        s.players[0].0 == b || s.players[1].0 == b,
        a != b,
        s.active_player_id == a,
        event_allowed(s, GameEventV::PlaceTile { player_id: a, at }),
    ensures
        apply_event(s, GameEventV::PlaceTile { player_id: a, at }).active_player_id == b,
{
}

/// A `PlaceTile` aimed outside the board is rejected, whatever the
/// state.
pub proof fn lemma_out_of_range_rejected(s: GameStateV, player_id: PlayerId, at: usize)
    requires
        at > 8,
    ensures
        !event_allowed(s, GameEventV::PlaceTile { player_id, at }),
{
}

/// A cell that already holds a mark cannot be played, whatever piece the
/// acting player owns.
pub proof fn lemma_occupied_cell_rejected(s: GameStateV, player_id: PlayerId, at: usize)
    requires
        at < 9,
        s.board[at as int] != Tile::Empty,
    ensures
        !event_allowed(s, GameEventV::PlaceTile { player_id, at }),
{
}

/// A player's piece never changes after join: whoever is on the roster
/// both before and after a legal event keeps the piece assigned at join
/// time.
pub proof fn lemma_piece_never_changes(s: GameStateV, e: GameEventV, id: PlayerId)
    requires
        s.wf(),
        event_allowed(s, e),
        has_player(s.players, id),
        has_player(apply_event(s, e).players, id),
    ensures
        player_tile(apply_event(s, e).players, id) == player_tile(s.players, id),
{
}

/// A board cell changes only when a legal move is played on exactly that
/// cell, and then from `Empty` to the acting player's piece; a cell
/// never reverts.
pub proof fn lemma_cell_changes_only_by_move(s: GameStateV, e: GameEventV, i: int)
    requires
        s.wf(),
        event_allowed(s, e),
        0 <= i < 9,
    ensures
        apply_event(s, e).board[i] != s.board[i] ==> {
            &&& s.board[i] == Tile::Empty
            &&& e is PlaceTile
            &&& e->PlaceTile_at == i
            &&& apply_event(s, e).board[i] == piece_of(s.players, e->PlaceTile_player_id)
        },
{
}

/// Consuming a legal disconnect removes the player from the roster, and
/// afterwards no event that needs that player on the roster — beginning
/// the game with them, disconnecting them again, or a move of theirs —
/// is legal. (Rejoining under the same id stays possible, and a
/// `PlayerWon` report is judged by the stage alone.)
pub proof fn lemma_disconnect_removes_player(s: GameStateV, p: PlayerId)
    requires
        s.wf(),
        event_allowed(s, GameEventV::PlayerDisconnected { player_id: p }),
    ensures
        ({
            let s2 = apply_event(s, GameEventV::PlayerDisconnected { player_id: p });
            &&& s2.players.len() == s.players.len() - 1
            &&& !has_player(s2.players, p)
            &&& !event_allowed(s2, GameEventV::BeginGame { goes_first: p })
            &&& !event_allowed(s2, GameEventV::PlayerDisconnected { player_id: p })
            &&& forall|at: usize|
                !event_allowed(s2, GameEventV::PlaceTile { player_id: p, at })
        }),
{
    let s2 = apply_event(s, GameEventV::PlayerDisconnected { player_id: p });
    let k = player_index(s.players, p);
    assert(s.players[k].0 == p);
    assert forall|i: int| 0 <= i < s2.players.len() implies s2.players[i].0 != p by {
        if i < k {
            assert(s2.players[i] == s.players[i]);
        } else {
            assert(s2.players[i] == s.players[i + 1]);
        }
    }
    assert(!has_player(s2.players, p));
    assert forall|at: usize| !event_allowed(
        s2,
        GameEventV::PlaceTile { player_id: p, at },
    ) by {
        assert(!has_player(s2.players, p));
    }
}

} // verus!
