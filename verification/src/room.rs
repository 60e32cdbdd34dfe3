//! Rooms and the players in them, as the search service reports them.

use vstd::prelude::*;
use vstd::std_specs::convert::FromSpecImpl;
use crate::text::same_text;

verus! {

/// How a room came to be.
#[derive(Clone, Copy, Debug, PartialEq, Eq, Structural)]
pub enum RoomType {
    /// Set up by a player.
    Custom,
    /// Made by quick matching.
    QuickMatch,
    /// A ranked ladder room.
    Ladder,
    /// Belongs to an event.
    Activity,
}

/// The stage of a room's life.
#[derive(Clone, Copy, Debug, PartialEq, Eq, Structural)]
pub enum RoomState {
    /// Waiting until the room is full.
    WaitingFullfill,
    /// Waiting for the players to get ready.
    WaitingReady,
    /// Everybody is ready.
    Ready,
    /// Looking for opponents.
    Matching,
    /// A game is running.
    Gaming,
    /// The game is over and is being settled.
    GameOver,
}

impl RoomState {
    /// The variant's name as a sequence of characters.
    pub open spec fn spec_name(self) -> Seq<char> {
        match self {
            RoomState::WaitingFullfill => "WaitingFullfill"@,
            RoomState::WaitingReady => "WaitingReady"@,
            RoomState::Ready => "Ready"@,
            RoomState::Matching => "Matching"@,
            RoomState::Gaming => "Gaming"@,
            RoomState::GameOver => "GameOver"@,
        }
    }

    /// The variant's name, as the card of a room shows it.
    pub fn name(&self) -> (text: &'static str)
        ensures
            text@ == self.spec_name(),
    {
        match self {
            RoomState::WaitingFullfill => "WaitingFullfill",
            RoomState::WaitingReady => "WaitingReady",
            RoomState::Ready => "Ready",
            RoomState::Matching => "Matching",
            RoomState::Gaming => "Gaming",
            RoomState::GameOver => "GameOver",
        }
    }
}

/// The game that a room is for.
#[derive(Clone, Copy, Debug, PartialEq, Eq, Structural)]
pub enum GameType {
    War3,
    RPG,
    CH3C,
}

/// The game type that `name` stands for. A name that is none of the three
/// known ones stands for `War3`.
pub open spec fn game_type_named(name: Seq<char>) -> GameType {
    if name == "RPG"@ {
        GameType::RPG
    } else if name == "CH3C"@ {
        GameType::CH3C
    } else {
        GameType::War3
    }
}

impl<'a> From<&'a str> for GameType {
    /// Reads a game type from its name, falling back to `War3`.
    fn from(value: &'a str) -> (game: Self) {
        if same_text(value, "RPG") {
            GameType::RPG
        } else if same_text(value, "CH3C") {
            GameType::CH3C
        } else {
            GameType::War3
        }
    }
}

impl<'a> FromSpecImpl<&'a str> for GameType {
    open spec fn obeys_from_spec() -> bool {
        true
    }

    open spec fn from_spec(value: &'a str) -> Self {
        game_type_named(value@)
    }
}

impl GameType {
    /// The name of the game type as a sequence of characters.
    pub open spec fn spec_name(self) -> Seq<char> {
        match self {
            GameType::War3 => "War3"@,
            GameType::RPG => "RPG"@,
            GameType::CH3C => "CH3C"@,
        }
    }

    /// The name of the game type, as the filter offers it.
    pub fn name(&self) -> (text: &'static str)
        ensures
            text@ == self.spec_name(),
    {
        match self {
            GameType::War3 => "War3",
            GameType::RPG => "RPG",
            GameType::CH3C => "CH3C",
        }
    }
}

/// Reading the name of a game type gives that game type back.
pub proof fn lemma_game_type_name_round_trip(game: GameType)
    ensures
        game_type_named(game.spec_name()) == game,
{
    reveal_strlit("War3");
    reveal_strlit("RPG");
    reveal_strlit("CH3C");
    if game == GameType::War3 {
        assert("War3"@.len() == 4);
        assert("RPG"@.len() == 3);
        assert("CH3C"@[0] == 'C');
        assert("War3"@[0] == 'W');
    } else if game == GameType::CH3C {
        assert("CH3C"@.len() == 4);
        assert("RPG"@.len() == 3);
    }
}

/// A player in a room.
#[derive(Debug, PartialEq, Eq)]
pub struct PlayerInfo {
    pub user_id: String,
    pub nick: Option<String>,
    pub activity_timeout: Option<i64>,
}

/// What a `PlayerInfo` holds.
pub struct PlayerInfoView {
    pub user_id: Seq<char>,
    pub nick: Option<Seq<char>>,
    pub activity_timeout: Option<i64>,
}

impl View for PlayerInfo {
    type V = PlayerInfoView;

    open spec fn view(&self) -> PlayerInfoView {
        PlayerInfoView {
            user_id: self.user_id@,
            nick: self.nick.deep_view(),
            activity_timeout: self.activity_timeout,
        }
    }
}

impl DeepView for PlayerInfo {
    type V = PlayerInfoView;

    open spec fn deep_view(&self) -> PlayerInfoView {
        self@
    }
}

impl Clone for PlayerInfo {
    fn clone(&self) -> (copy: Self)
        ensures
            copy@ == self@,
    {
        PlayerInfo {
            user_id: self.user_id.clone(),
            nick: self.nick.clone(),
            activity_timeout: self.activity_timeout,
        }
    }
}

/// A copy of a list of players.
pub fn clone_players(players: &Vec<PlayerInfo>) -> (copy: Vec<PlayerInfo>)
    ensures
        copy.deep_view() == players.deep_view(),
{
    let copy = players.clone();
    assert(copy.deep_view() =~= players.deep_view());
    copy
}


/// A room falls stale when it has shown no activity for more than this many
/// seconds.
pub const STALE_AFTER: i64 = 3600;

/// How recently a room was active. It decides how the room is shown, never
/// whether.
#[derive(Clone, Copy, Debug, PartialEq, Eq, Structural)]
pub enum Freshness {
    /// No activity for more than `STALE_AFTER` seconds.
    Stale,
    /// Active within the last `STALE_AFTER` seconds.
    Active,
}

/// One game room.
#[derive(Debug, PartialEq, Eq)]
pub struct TeamUpRoom {
    /// The room's number in the service. It comes from a counter: it need not
    /// start at zero, and the numbers in use need not be contiguous.
    pub id: i64,
    pub name: String,
    /// The room number that players see.
    pub room_no: String,
    pub has_secret: bool,
    pub secret: Option<String>,
    /// Whether players who do not get ready are removed automatically.
    pub auto_kick: bool,
    pub game_type: GameType,
    pub room_type: RoomType,
    pub room_state: RoomState,
    pub players: Vec<PlayerInfo>,
    pub max_players: u8,
    /// Seconds spent matching; meaningful while the room is `Matching`.
    pub matching_time: Option<i64>,
    pub match_start_time: Option<i64>,
    pub match_end_time: Option<i64>,
    pub last_game_id: Option<u64>,
    pub activity_id: Option<u32>,
    /// When the room was last active, in seconds since the epoch; 0 when the
    /// service did not say. A player leaving does not count as activity.
    pub last_active_time: i64,
    pub created_at: i64,
    /// Whether the room has referee slots.
    pub referees_slots: bool,
    /// `None`: the room is listed. `Some`: the room is left out of the list.
    /// The service sends `None`; a kick-out sets `Some(true)` until the next
    /// fetch replaces the room.
    pub is_display: Option<bool>,
}

/// What a `TeamUpRoom` holds.
pub struct TeamUpRoomView {
    pub id: i64,
    pub name: Seq<char>,
    pub room_no: Seq<char>,
    pub has_secret: bool,
    pub secret: Option<Seq<char>>,
    pub auto_kick: bool,
    pub game_type: GameType,
    pub room_type: RoomType,
    pub room_state: RoomState,
    pub players: Seq<PlayerInfoView>,
    pub max_players: u8,
    pub matching_time: Option<i64>,
    pub match_start_time: Option<i64>,
    pub match_end_time: Option<i64>,
    pub last_game_id: Option<u64>,
    pub activity_id: Option<u32>,
    pub last_active_time: i64,
    pub created_at: i64,
    pub referees_slots: bool,
    pub is_display: Option<bool>,
}

impl TeamUpRoomView {
    /// Whether the room is left out of the list.
    pub open spec fn hidden(self) -> bool {
        self.is_display is Some
    }

    /// The room's freshness at the instant `now`.
    pub open spec fn freshness(self, now: int) -> Freshness {
        if now - self.last_active_time > STALE_AFTER {
            Freshness::Stale
        } else {
            Freshness::Active
        }
    }

    /// The same room, marked as left out of the list.
    pub open spec fn suppressed(self) -> TeamUpRoomView {
        TeamUpRoomView { is_display: Some(true), ..self }
    }
}

impl View for TeamUpRoom {
    type V = TeamUpRoomView;

    open spec fn view(&self) -> TeamUpRoomView {
        TeamUpRoomView {
            id: self.id,
            name: self.name@,
            room_no: self.room_no@,
            has_secret: self.has_secret,
            secret: self.secret.deep_view(),
            auto_kick: self.auto_kick,
            game_type: self.game_type,
            room_type: self.room_type,
            room_state: self.room_state,
            players: self.players.deep_view(),
            max_players: self.max_players,
            matching_time: self.matching_time,
            match_start_time: self.match_start_time,
            match_end_time: self.match_end_time,
            last_game_id: self.last_game_id,
            activity_id: self.activity_id,
            last_active_time: self.last_active_time,
            created_at: self.created_at,
            referees_slots: self.referees_slots,
            is_display: self.is_display,
        }
    }
}

impl DeepView for TeamUpRoom {
    type V = TeamUpRoomView;

    open spec fn deep_view(&self) -> TeamUpRoomView {
        self@
    }
}

impl Clone for TeamUpRoom {
    fn clone(&self) -> (copy: Self)
        ensures
            copy@ == self@,
    {
        TeamUpRoom {
            id: self.id,
            name: self.name.clone(),
            room_no: self.room_no.clone(),
            has_secret: self.has_secret,
            secret: self.secret.clone(),
            auto_kick: self.auto_kick,
            game_type: self.game_type,
            room_type: self.room_type,
            room_state: self.room_state,
            players: clone_players(&self.players),
            max_players: self.max_players,
            matching_time: self.matching_time,
            match_start_time: self.match_start_time,
            match_end_time: self.match_end_time,
            last_game_id: self.last_game_id,
            activity_id: self.activity_id,
            last_active_time: self.last_active_time,
            created_at: self.created_at,
            referees_slots: self.referees_slots,
            is_display: self.is_display,
        }
    }
}

impl TeamUpRoom {
    /// Whether the room is left out of the list.
    pub fn is_hidden(&self) -> (hidden: bool)
        ensures
            hidden == self@.hidden(),
    {
        self.is_display.is_some()
    }

    /// Classifies the room at the instant `now`, in seconds since the epoch:
    /// stale when it was last active more than `STALE_AFTER` seconds before
    /// `now`, active otherwise. The difference is taken in the integers, so
    /// no pair of instants is out of range.
    pub fn classify(&self, now: i64) -> (tier: Freshness)
        ensures
            tier == self@.freshness(now as int),
            tier == Freshness::Stale <==> now - self.last_active_time > 3600,
            tier == Freshness::Active <==> now - self.last_active_time <= 3600,
    {
        let idle: i128 = now as i128 - self.last_active_time as i128;
        if idle > STALE_AFTER as i128 {
            Freshness::Stale
        } else {
            Freshness::Active
        }
    }
}

/// A copy of a list of rooms.
pub fn clone_rooms(rooms: &Vec<TeamUpRoom>) -> (copy: Vec<TeamUpRoom>)
    ensures
        copy.deep_view() == rooms.deep_view(),
{
    let copy = rooms.clone();
    assert(copy.deep_view() =~= rooms.deep_view());
    copy
}

} // verus!
