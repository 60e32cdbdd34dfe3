//! What goes to the room service and what comes back: search criteria, search
//! results, kick-out requests, and the addresses they are sent to.

use vstd::prelude::*;
use crate::room::{clone_rooms, PlayerInfo, PlayerInfoView, TeamUpRoom, TeamUpRoomView};
use crate::text::joined;

verus! {

/// Path of the search endpoint, below the host.
pub const URL: &'static str = "/api/teamup/room/search";

/// Path and query of the kick-out endpoint, below the host. The query holds
/// the credential that the service asks for.
pub const KICK_OUT: &'static str =
    "/api/teamup/room/kickout?token=oP0dU4YXxjU5vJ1MO3JdAbBhPKwtOEIyz36o2F";

/// The game type searched for when the operator has chosen none.
pub const DEFAULT_GAME_TYPE: &'static str = "War3";

/// Rooms asked for per page. One large page stands in for paging.
pub const PAGE_SIZE: u64 = 1000;

/// The page asked for; pages count from 1.
pub const PAGE_INDEX: u64 = 1;

/// Criteria of a room search.
#[derive(Debug, PartialEq, Eq)]
pub struct ListTeamUpRoomsRequest {
    /// Primary category: the game type.
    pub cate1: Option<String>,
    /// Secondary category.
    pub cate2: Option<String>,
    pub tags: Option<Vec<String>>,
    pub keywords: Option<String>,
    pub map_id: Option<String>,
    pub page_size: u64,
    pub page_index: u64,
    /// Game type of an event.
    pub activity_game_type: Option<String>,
    /// Whether spectators can watch.
    pub stream_observer: Option<bool>,
}

/// What a `ListTeamUpRoomsRequest` holds.
pub struct ListTeamUpRoomsRequestView {
    pub cate1: Option<Seq<char>>,
    pub cate2: Option<Seq<char>>,
    pub tags: Option<Seq<Seq<char>>>,
    pub keywords: Option<Seq<char>>,
    pub map_id: Option<Seq<char>>,
    pub page_size: u64,
    pub page_index: u64,
    pub activity_game_type: Option<Seq<char>>,
    pub stream_observer: Option<bool>,
}

impl ListTeamUpRoomsRequestView {
    /// The criteria that ask for one large page of rooms of the game type
    /// `game_type` and for nothing else.
    pub open spec fn of_game_type(game_type: Seq<char>) -> ListTeamUpRoomsRequestView {
        ListTeamUpRoomsRequestView {
            cate1: Some(game_type),
            cate2: None,
            tags: None,
            keywords: None,
            map_id: None,
            page_size: PAGE_SIZE,
            page_index: PAGE_INDEX,
            activity_game_type: None,
            stream_observer: None,
        }
    }

    /// The game type that the stored filter `filter` stands for: the default
    /// game type when the filter is empty, the filter itself otherwise.
    pub open spec fn chosen_game_type(filter: Seq<char>) -> Seq<char> {
        if filter.len() == 0 {
            DEFAULT_GAME_TYPE@
        } else {
            filter
        }
    }

    /// Page size and page index are positive.
    pub open spec fn wf(self) -> bool {
        self.page_size > 0 && self.page_index > 0
    }

    /// The same criteria for another game type.
    pub open spec fn with_game_type(self, game_type: Seq<char>) -> ListTeamUpRoomsRequestView {
        ListTeamUpRoomsRequestView { cate1: Some(game_type), ..self }
    }
}

impl View for ListTeamUpRoomsRequest {
    type V = ListTeamUpRoomsRequestView;

    open spec fn view(&self) -> ListTeamUpRoomsRequestView {
        ListTeamUpRoomsRequestView {
            cate1: self.cate1.deep_view(),
            cate2: self.cate2.deep_view(),
            tags: self.tags.deep_view(),
            keywords: self.keywords.deep_view(),
            map_id: self.map_id.deep_view(),
            page_size: self.page_size,
            page_index: self.page_index,
            activity_game_type: self.activity_game_type.deep_view(),
            stream_observer: self.stream_observer,
        }
    }
}

impl DeepView for ListTeamUpRoomsRequest {
    type V = ListTeamUpRoomsRequestView;

    open spec fn deep_view(&self) -> ListTeamUpRoomsRequestView {
        self@
    }
}

impl Default for ListTeamUpRoomsRequest {
    /// One large page of rooms of the default game type.
    fn default() -> (params: Self)
        ensures
            params@ == ListTeamUpRoomsRequestView::of_game_type(DEFAULT_GAME_TYPE@),
            params@.wf(),
    {
        ListTeamUpRoomsRequest {
            cate1: Some(DEFAULT_GAME_TYPE.to_owned()),
            cate2: None,
            tags: None,
            map_id: None,
            page_size: PAGE_SIZE,
            page_index: PAGE_INDEX,
            activity_game_type: None,
            keywords: None,
            stream_observer: None,
        }
    }
}

impl Clone for ListTeamUpRoomsRequest {
    fn clone(&self) -> (copy: Self)
        ensures
            copy@ == self@,
    {
        let tags = match &self.tags {
            Some(tags) => {
                let copy = tags.clone();
                assert(copy.deep_view() =~= tags.deep_view());
                Some(copy)
            },
            None => None,
        };
        ListTeamUpRoomsRequest {
            cate1: self.cate1.clone(),
            cate2: self.cate2.clone(),
            tags,
            keywords: self.keywords.clone(),
            map_id: self.map_id.clone(),
            page_size: self.page_size,
            page_index: self.page_index,
            activity_game_type: self.activity_game_type.clone(),
            stream_observer: self.stream_observer,
        }
    }
}

impl ListTeamUpRoomsRequest {
    /// The criteria for the filter that the operator chose last: one large
    /// page of rooms of that game type, or of the default game type when the
    /// filter is empty. Every other criterion is left unset.
    pub fn build(filter: &str) -> (params: Self)
        ensures
            params@ == ListTeamUpRoomsRequestView::of_game_type(
                ListTeamUpRoomsRequestView::chosen_game_type(filter@),
            ),
            params@.wf(),
    {
        let mut params = ListTeamUpRoomsRequest::default();
        if !filter.is_empty() {
            params.cate1 = Some(filter.to_owned());
        }
        params
    }
}

/// The answer to a room search.
#[derive(Debug, PartialEq, Eq)]
pub struct ListTeamUpRoomsResponse {
    pub page_size: u64,
    pub page_index: u64,
    /// Number of rooms that match, on all pages.
    pub total: u64,
    /// The keyword that was searched for.
    pub keywords: Option<String>,
    /// The rooms of this page, in the order the service chose.
    pub rooms: Vec<TeamUpRoom>,
}

/// What a `ListTeamUpRoomsResponse` holds.
pub struct ListTeamUpRoomsResponseView {
    pub page_size: u64,
    pub page_index: u64,
    pub total: u64,
    pub keywords: Option<Seq<char>>,
    pub rooms: Seq<TeamUpRoomView>,
}

impl ListTeamUpRoomsResponseView {
    /// The answer that holds nothing: no rooms, every number zero.
    pub open spec fn empty() -> ListTeamUpRoomsResponseView {
        ListTeamUpRoomsResponseView {
            page_size: 0,
            page_index: 0,
            total: 0,
            keywords: None,
            rooms: Seq::empty(),
        }
    }

    /// The answer that stands for the outcome of a search: the payload where
    /// one came back, the empty answer where the search failed or its reply
    /// could not be read or carried no payload.
    pub open spec fn of_outcome(
        payload: Option<ListTeamUpRoomsResponseView>,
    ) -> ListTeamUpRoomsResponseView {
        match payload {
            Some(found) => found,
            None => ListTeamUpRoomsResponseView::empty(),
        }
    }
}

impl View for ListTeamUpRoomsResponse {
    type V = ListTeamUpRoomsResponseView;

    open spec fn view(&self) -> ListTeamUpRoomsResponseView {
        ListTeamUpRoomsResponseView {
            page_size: self.page_size,
            page_index: self.page_index,
            total: self.total,
            keywords: self.keywords.deep_view(),
            rooms: self.rooms.deep_view(),
        }
    }
}

impl DeepView for ListTeamUpRoomsResponse {
    type V = ListTeamUpRoomsResponseView;

    open spec fn deep_view(&self) -> ListTeamUpRoomsResponseView {
        self@
    }
}

impl Default for ListTeamUpRoomsResponse {
    fn default() -> (found: Self)
        ensures
            found@ == ListTeamUpRoomsResponseView::empty(),
    {
        let found = ListTeamUpRoomsResponse {
            page_size: 0,
            page_index: 0,
            total: 0,
            keywords: None,
            rooms: Vec::new(),
        };
        assert(found@.rooms =~= Seq::empty());
        found
    }
}

impl Clone for ListTeamUpRoomsResponse {
    fn clone(&self) -> (copy: Self)
        ensures
            copy@ == self@,
    {
        ListTeamUpRoomsResponse {
            page_size: self.page_size,
            page_index: self.page_index,
            total: self.total,
            keywords: self.keywords.clone(),
            rooms: clone_rooms(&self.rooms),
        }
    }
}

impl ListTeamUpRoomsResponse {
    /// The answer that a finished search leaves: its payload, or the empty
    /// answer when `payload` is `None`, that is when the request failed, the
    /// reply could not be read, or the reply held no payload. A search never
    /// ends in an error.
    pub fn of_outcome(payload: Option<ListTeamUpRoomsResponse>) -> (found: Self)
        ensures
            found@ == ListTeamUpRoomsResponseView::of_outcome(payload.deep_view()),
            payload is None ==> found@.total == 0 && found@.rooms.len() == 0,
    {
        match payload {
            Some(found) => found,
            None => ListTeamUpRoomsResponse::default(),
        }
    }
}

/// Asks the service to remove players from a room.
#[derive(Debug, PartialEq, Eq)]
pub struct KickOutRoomsRequest {
    /// The players to remove.
    pub user_ids: Vec<String>,
    /// The room to remove them from.
    pub room_id: i64,
}

/// What a `KickOutRoomsRequest` holds.
pub struct KickOutRoomsRequestView {
    pub user_ids: Seq<Seq<char>>,
    pub room_id: i64,
}

impl KickOutRoomsRequestView {
    /// The request that removes all of `players` from the room `room_id`.
    pub open spec fn removing(
        room_id: i64,
        players: Seq<PlayerInfoView>,
    ) -> KickOutRoomsRequestView {
        KickOutRoomsRequestView {
            user_ids: Seq::new(players.len(), |k: int| players[k].user_id),
            room_id,
        }
    }
}

impl View for KickOutRoomsRequest {
    type V = KickOutRoomsRequestView;

    open spec fn view(&self) -> KickOutRoomsRequestView {
        KickOutRoomsRequestView { user_ids: self.user_ids.deep_view(), room_id: self.room_id }
    }
}

impl DeepView for KickOutRoomsRequest {
    type V = KickOutRoomsRequestView;

    open spec fn deep_view(&self) -> KickOutRoomsRequestView {
        self@
    }
}

impl Clone for KickOutRoomsRequest {
    fn clone(&self) -> (copy: Self)
        ensures
            copy@ == self@,
    {
        let user_ids = self.user_ids.clone();
        assert(user_ids.deep_view() =~= self.user_ids.deep_view());
        KickOutRoomsRequest { user_ids, room_id: self.room_id }
    }
}

impl KickOutRoomsRequest {
    /// The request that removes all of `players` from the room `room_id`:
    /// their user identifiers, in the order of the players.
    pub fn removing(room_id: i64, players: Vec<PlayerInfo>) -> (request: Self)
        ensures
            request@ == KickOutRoomsRequestView::removing(room_id, players.deep_view()),
    {
        let mut user_ids: Vec<String> = Vec::new();
        let mut players = players;
        let ghost all = players.deep_view();
        let count = players.len();
        let mut k: usize = 0;
        while k < count
            invariant
                k <= count,
                count == players.len(),
                players.deep_view().len() == all.len(),
                user_ids.len() == k,
                forall|j: int| 0 <= j < k ==> user_ids[j]@ == all[j].user_id,
                forall|j: int| k <= j < count ==> players[j]@ == all[j],
            decreases count - k,
        {
            let player = players[k].clone();
            user_ids.push(player.user_id);
            k = k + 1;
        }
        let request = KickOutRoomsRequest { user_ids, room_id };
        assert(request@.user_ids =~= KickOutRoomsRequestView::removing(room_id, all).user_ids);
        request
    }
}

/// The address below `host` that `path` names. A host that is not known
/// counts as the empty string, so that the address is the path alone.
pub open spec fn address(host: Option<Seq<char>>, path: Seq<char>) -> Seq<char> {
    match host {
        Some(host) => host + path,
        None => path,
    }
}

/// The address of the endpoint `path` on the host that the session names.
/// `host` is `None` when the session names none or it could not be read.
pub fn endpoint(host: &Option<String>, path: &str) -> (url: String)
    ensures
        url@ == address(host.deep_view(), path@),
{
    match host {
        Some(host) => joined(host.as_str(), path),
        None => path.to_owned(),
    }
}

} // verus!
