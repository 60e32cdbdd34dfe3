//! The card that shows one room in the list.

use vstd::prelude::*;
use crate::clock::{format_timestamp, timestamp_text};
use crate::room::{clone_players, Freshness, PlayerInfo, PlayerInfoView, TeamUpRoom, TeamUpRoomView};
use crate::text::{decimal, joined, numeral, signed_text, unsigned_text};

verus! {

/// What stands before the room's identifier.
pub const ID_LABEL: &'static str = "房间id:";

/// What stands before the room number that players see.
pub const ROOM_NO_LABEL: &'static str = "房号：";

/// What stands before the room's name.
pub const NAME_LABEL: &'static str = "房间名:";

/// What stands before the stage of the room's life.
pub const STATE_LABEL: &'static str = "房间状态:";

/// What stands before the time of last activity.
pub const ACTIVE_LABEL: &'static str = "活跃时间:";

/// What stands before the number of players.
pub const PLAYERS_LABEL: &'static str = "房间玩家数:";

/// Label of the button of a room that has players.
pub const KICK_OUT_LABEL: &'static str = "踢出";

/// Label of the button of a room without players.
pub const EMPTY_ROOM_LABEL: &'static str = "警告房间为空";

/// Style of the button of a stale room.
pub const STALE_CLASS: &'static str = "btn btn-success";

/// Style of the button of an active room.
pub const ACTIVE_CLASS: &'static str = "btn btn-danger";

/// How the time of last activity is written.
pub const TIME_PATTERN: &'static str = "%Y-%m-%d %H:%M:%S";

/// Seconds by which the operators' clock is ahead of UTC.
pub const ZONE_SHIFT: i64 = 28800;

/// The card of one room: six lines of text and a button. A double click on
/// the button asks to kick out `players` from the room `room_id`, which
/// stands at `index` in the list of rooms.
#[derive(Debug, PartialEq, Eq)]
pub struct RoomCard {
    pub id_line: String,
    pub room_no_line: String,
    pub name_line: String,
    pub state_line: String,
    /// `None` where the calendar has no date for the time of last activity.
    pub active_line: Option<String>,
    pub players_line: String,
    pub button_class: String,
    pub button_label: String,
    pub index: usize,
    pub room_id: i64,
    pub players: Vec<PlayerInfo>,
}

/// What a `RoomCard` holds.
pub struct RoomCardView {
    pub id_line: Seq<char>,
    pub room_no_line: Seq<char>,
    pub name_line: Seq<char>,
    pub state_line: Seq<char>,
    pub active_line: Option<Seq<char>>,
    pub players_line: Seq<char>,
    pub button_class: Seq<char>,
    pub button_label: Seq<char>,
    pub index: int,
    pub room_id: i64,
    pub players: Seq<PlayerInfoView>,
}

impl View for RoomCard {
    type V = RoomCardView;

    open spec fn view(&self) -> RoomCardView {
        RoomCardView {
            id_line: self.id_line@,
            room_no_line: self.room_no_line@,
            name_line: self.name_line@,
            state_line: self.state_line@,
            active_line: self.active_line.deep_view(),
            players_line: self.players_line@,
            button_class: self.button_class@,
            button_label: self.button_label@,
            index: self.index as int,
            room_id: self.room_id,
            players: self.players.deep_view(),
        }
    }
}

impl DeepView for RoomCard {
    type V = RoomCardView;

    open spec fn deep_view(&self) -> RoomCardView {
        self@
    }
}

impl Clone for RoomCard {
    fn clone(&self) -> (copy: Self)
        ensures
            copy@ == self@,
    {
        RoomCard {
            id_line: self.id_line.clone(),
            room_no_line: self.room_no_line.clone(),
            name_line: self.name_line.clone(),
            state_line: self.state_line.clone(),
            active_line: self.active_line.clone(),
            players_line: self.players_line.clone(),
            button_class: self.button_class.clone(),
            button_label: self.button_label.clone(),
            index: self.index,
            room_id: self.room_id,
            players: clone_players(&self.players),
        }
    }
}

/// The button style that goes with a freshness.
pub open spec fn class_of(tier: Freshness) -> Seq<char> {
    match tier {
        Freshness::Stale => STALE_CLASS@,
        Freshness::Active => ACTIVE_CLASS@,
    }
}

/// The button style that goes with a freshness.
pub fn button_class(tier: Freshness) -> (class: &'static str)
    ensures
        class@ == class_of(tier),
{
    match tier {
        Freshness::Stale => STALE_CLASS,
        Freshness::Active => ACTIVE_CLASS,
    }
}

/// The instant `secs`, in seconds since the epoch, as the operators' clock
/// shows it: the date and time `ZONE_SHIFT` seconds later, written under
/// `TIME_PATTERN`. It is `None` where the later instant is beyond the last
/// 64-bit second or the calendar has no date for it.
pub open spec fn local_time_text(secs: i64) -> Option<Seq<char>> {
    if secs + ZONE_SHIFT > i64::MAX {
        None
    } else {
        timestamp_text((secs + ZONE_SHIFT) as i64, TIME_PATTERN@)
    }
}

/// Writes the instant `secs` as the operators' clock shows it.
pub fn local_time(secs: i64) -> (text: Option<String>)
    ensures
        text.deep_view() == local_time_text(secs),
{
    match secs.checked_add(ZONE_SHIFT) {
        Some(shifted) => format_timestamp(shifted, TIME_PATTERN),
        None => None,
    }
}

impl RoomCardView {
    /// The card of the room `room`, which stands at `index` in the list,
    /// with a button of style `button_class` and with `active_time` as the
    /// text of the room's time of last activity.
    pub open spec fn compose(
        index: int,
        room: TeamUpRoomView,
        button_class: Seq<char>,
        active_time: Option<Seq<char>>,
    ) -> RoomCardView {
        RoomCardView {
            id_line: ID_LABEL@ + decimal(room.id as int),
            room_no_line: ROOM_NO_LABEL@ + room.room_no,
            name_line: NAME_LABEL@ + room.name,
            state_line: STATE_LABEL@ + room.room_state.spec_name(),
            active_line: match active_time {
                Some(time) => Some(ACTIVE_LABEL@ + time),
                None => None,
            },
            players_line: PLAYERS_LABEL@ + numeral(room.players.len()),
            button_class,
            button_label: if room.players.len() == 0 {
                EMPTY_ROOM_LABEL@
            } else {
                KICK_OUT_LABEL@
            },
            index,
            room_id: room.id,
            players: room.players,
        }
    }

    /// The card of the room `room`, which stands at `index` in the list, as
    /// it is shown at the instant `now`.
    pub open spec fn of_room(index: int, room: TeamUpRoomView, now: int) -> RoomCardView {
        RoomCardView::compose(
            index,
            room,
            class_of(room.freshness(now)),
            local_time_text(room.last_active_time),
        )
    }
}

impl RoomCard {
    /// Composes the card of the room `item`, which stands at `index` in the
    /// list, from the room, the style of its button and the text of its time
    /// of last activity.
    pub fn compose(
        index: usize,
        item: &TeamUpRoom,
        button_class: &str,
        active_time: Option<String>,
    ) -> (card: RoomCard)
        ensures
            card@ == RoomCardView::compose(
                index as int,
                item@,
                button_class@,
                active_time.deep_view(),
            ),
    {
        let players = clone_players(&item.players);
        let active_line = match active_time {
            Some(time) => Some(joined(ACTIVE_LABEL, time.as_str())),
            None => None,
        };
        let button_label = if players.is_empty() {
            EMPTY_ROOM_LABEL
        } else {
            KICK_OUT_LABEL
        };
        proof {
            assert(players.deep_view().len() == players.len());
        }
        RoomCard {
            id_line: joined(ID_LABEL, signed_text(item.id).as_str()),
            room_no_line: joined(ROOM_NO_LABEL, item.room_no.as_str()),
            name_line: joined(NAME_LABEL, item.name.as_str()),
            state_line: joined(STATE_LABEL, item.room_state.name()),
            active_line,
            players_line: joined(PLAYERS_LABEL, unsigned_text(players.len() as u64).as_str()),
            button_class: button_class.to_owned(),
            button_label: button_label.to_owned(),
            index,
            room_id: item.id,
            players,
        }
    }
}

/// The card of the room `item`, which stands at `index` in the list, with a
/// button of style `button_class`. The time of last activity is written as
/// the operators' clock shows it.
pub fn get_li(index: usize, item: &TeamUpRoom, button_class: &str) -> (card: RoomCard)
    ensures
        card@ == RoomCardView::compose(
            index as int,
            item@,
            button_class@,
            local_time_text(item.last_active_time),
        ),
{
    RoomCard::compose(index, item, button_class, local_time(item.last_active_time))
}

} // verus!
