//! Authoritative game state and event validation for a networked
//! two-player tic-tac-toe match.
//!
//! The store is a deterministic state machine: a [`GameState`] is mutated
//! exclusively by consuming [`GameEvent`]s, and a pure validator decides
//! which events may legally apply to a given state. The authoritative
//! actor (the server) validates then consumes; mirrors (clients) consume
//! events the server has already validated and never re-derive legality
//! rules of their own.

use vstd::prelude::*;

mod cards;
mod events;
mod laws;
mod model;
mod state;
mod userdata;

verus! {

pub use crate::cards::CardSet;
pub use crate::cards::CardSetV;
pub use crate::cards::CardSpec;
pub use crate::cards::CardSpecV;
pub use crate::cards::cards_view;
pub use crate::cards::max_tier;
pub use crate::cards::tier_ids;
pub use crate::cards::tiers_view;
pub use crate::events::EndGameReason;
pub use crate::events::GameEvent;
pub use crate::events::GameEventV;
pub use crate::events::Player;
pub use crate::events::PlayerId;
pub use crate::events::PlayerV;
pub use crate::events::Stage;
pub use crate::events::Tile;
pub use crate::laws::apply_events;
pub use crate::laws::events_allowed;
pub use crate::laws::lemma_apply_preserves_wf;
pub use crate::laws::lemma_cell_changes_only_by_move;
pub use crate::laws::lemma_consume_appends_history;
pub use crate::laws::lemma_disconnect_removes_player;
pub use crate::laws::lemma_history_of_run;
pub use crate::laws::lemma_occupied_cell_persists;
pub use crate::laws::lemma_occupied_cell_rejected;
pub use crate::laws::lemma_out_of_range_rejected;
pub use crate::laws::lemma_piece_never_changes;
pub use crate::laws::lemma_place_tile_marks_cell;
pub use crate::laws::lemma_run_preserves_wf;
pub use crate::laws::lemma_turn_alternates;
pub use crate::laws::lemma_winner_is_roster_player;
pub use crate::model::GameStateV;
pub use crate::model::apply_event;
pub use crate::model::event_allowed;
pub use crate::model::first_some;
pub use crate::model::has_player;
pub use crate::model::initial_state;
pub use crate::model::joining_piece;
pub use crate::model::line_tile;
pub use crate::model::line_winner;
pub use crate::model::lookup_player;
pub use crate::model::opponent_of;
pub use crate::model::owner_of;
pub use crate::model::piece_of;
pub use crate::model::player_index;
pub use crate::model::player_tile;
pub use crate::model::winner_of;
pub use crate::state::GameState;
pub use crate::userdata::MAX_NAME_BYTES;
pub use crate::userdata::USER_DATA_BYTES;
pub use crate::userdata::lemma_name_round_trip;
pub use crate::userdata::name_from_user_data;
pub use crate::userdata::spec_name_from_user_data;
pub use crate::userdata::spec_user_data_with_name;
pub use crate::userdata::user_data_with_name;

} // verus!
