//! The room list of an operator dashboard for team-up game rooms.
//!
//! The dashboard lists the rooms that a search service reports, lets the
//! operator choose a game type, marks the rooms that have been idle for long,
//! and lets the operator kick all players out of a room. This crate holds the
//! rules: what the list holds, how each event changes it, what is shown, and
//! what is sent. It does no input or output of its own. Every transition
//! returns what is to be done, and the shell around the crate does it.

pub mod card;
pub mod clock;
pub mod laws;
pub mod page;
pub mod room;
pub mod search;
pub mod state;
pub mod text;

pub use crate::card::RoomCard;
pub use crate::page::{Dropdowns, Page};
pub use crate::room::{Freshness, GameType, PlayerInfo, RoomState, RoomType, TeamUpRoom};
pub use crate::search::{KickOutRoomsRequest, ListTeamUpRoomsRequest, ListTeamUpRoomsResponse};
pub use crate::state::{Action, KickOutCall, Msg, RoomList, SearchCall, Update};
