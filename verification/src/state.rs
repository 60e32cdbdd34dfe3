//! The room list: what it holds, the messages that change it, and what each
//! change asks of the shell around it.
//!
//! The library decides; the shell acts. A transition returns an `Action`. The
//! shell reads and writes the session, sends what is to be sent, and hands
//! the outcome of a search back as a message.

use vstd::prelude::*;
use crate::card::{button_class, get_li, RoomCard, RoomCardView};
use crate::clock::current_timestamp;
use crate::page::{
    Dropdowns, DropdownsView, Page, PageView, ALERT_TEXT, REFRESH_LABEL, TITLE_PREFIX,
};
use crate::room::{PlayerInfo, PlayerInfoView, TeamUpRoomView};
use crate::search::{
    address, endpoint, KickOutRoomsRequest, KickOutRoomsRequestView, ListTeamUpRoomsRequest,
    ListTeamUpRoomsRequestView, ListTeamUpRoomsResponse, ListTeamUpRoomsResponseView, KICK_OUT,
    URL,
};
use crate::text::joined;

verus! {

/// The session key under which the chosen game type is kept.
pub const FILTER_KEY: &'static str = "room_list_game_type";

/// The session key under which the host of the service is kept.
pub const HOST_KEY: &'static str = "current_env";

/// What can happen to the room list.
#[derive(Debug, PartialEq, Eq)]
pub enum Msg {
    /// A search has ended with this answer.
    Init(ListTeamUpRoomsResponse),
    /// The operator asks to remove these players from the room with this
    /// identifier, which stands at this index in the list.
    KickOut((usize, i64, Vec<PlayerInfo>)),
    /// The operator chose this game type.
    UpdateGameType(String),
    /// The notice is to be shown (`true`) or taken away (`false`).
    AlertStop(bool),
    /// The operator asks for the rooms to be fetched again.
    Refresh,
}

/// What a `Msg` holds.
pub enum MsgView {
    Init(ListTeamUpRoomsResponseView),
    KickOut(usize, i64, Seq<PlayerInfoView>),
    UpdateGameType(Seq<char>),
    AlertStop(bool),
    Refresh,
}

impl View for Msg {
    type V = MsgView;

    open spec fn view(&self) -> MsgView {
        match self {
            Msg::Init(found) => MsgView::Init(found@),
            Msg::KickOut(target) => MsgView::KickOut(target.0, target.1, target.2.deep_view()),
            Msg::UpdateGameType(game_type) => MsgView::UpdateGameType(game_type@),
            Msg::AlertStop(shown) => MsgView::AlertStop(*shown),
            Msg::Refresh => MsgView::Refresh,
        }
    }
}

impl DeepView for Msg {
    type V = MsgView;

    open spec fn deep_view(&self) -> MsgView {
        self@
    }
}

/// What a transition asks of the shell.
#[derive(Debug, PartialEq, Eq)]
pub enum Action {
    /// Nothing.
    Idle,
    /// Search with these criteria, and hand the outcome back.
    Fetch(ListTeamUpRoomsRequest),
    /// Keep `game_type` in the session under `FILTER_KEY`, then search with
    /// `params` and hand the outcome back.
    StoreAndFetch { game_type: String, params: ListTeamUpRoomsRequest },
    /// Ask the service to remove `players` from the room `room_id`. The
    /// outcome is of no interest.
    KickOut { room_id: i64, players: Vec<PlayerInfo> },
}

/// What an `Action` holds.
pub enum ActionView {
    Idle,
    Fetch(ListTeamUpRoomsRequestView),
    StoreAndFetch { game_type: Seq<char>, params: ListTeamUpRoomsRequestView },
    KickOut { room_id: i64, players: Seq<PlayerInfoView> },
}

impl View for Action {
    type V = ActionView;

    open spec fn view(&self) -> ActionView {
        match self {
            Action::Idle => ActionView::Idle,
            Action::Fetch(params) => ActionView::Fetch(params@),
            Action::StoreAndFetch { game_type, params } => ActionView::StoreAndFetch {
                game_type: game_type@,
                params: params@,
            },
            Action::KickOut { room_id, players } => ActionView::KickOut {
                room_id: *room_id,
                players: players.deep_view(),
            },
        }
    }
}

impl DeepView for Action {
    type V = ActionView;

    open spec fn deep_view(&self) -> ActionView {
        self@
    }
}

/// How a transition ends: whether the dashboard is to be drawn again, and
/// what the shell is to do.
#[derive(Debug, PartialEq, Eq)]
pub struct Update {
    pub render: bool,
    pub action: Action,
}

/// What an `Update` holds.
pub struct UpdateView {
    pub render: bool,
    pub action: ActionView,
}

impl View for Update {
    type V = UpdateView;

    open spec fn view(&self) -> UpdateView {
        UpdateView { render: self.render, action: self.action@ }
    }
}

impl DeepView for Update {
    type V = UpdateView;

    open spec fn deep_view(&self) -> UpdateView {
        self@
    }
}

/// A search that is ready to be sent: the criteria go to `url` by POST.
#[derive(Debug, PartialEq, Eq)]
pub struct SearchCall {
    pub url: String,
    pub body: ListTeamUpRoomsRequest,
}

/// A kick-out that is ready to be sent: the request goes to `url` by POST.
#[derive(Debug, PartialEq, Eq)]
pub struct KickOutCall {
    pub url: String,
    pub body: KickOutRoomsRequest,
}

/// The room list of the dashboard.
#[derive(Debug, PartialEq, Eq)]
pub struct RoomList {
    /// The criteria of the searches.
    pub params: ListTeamUpRoomsRequest,
    /// The answer of the search that ended last.
    pub res: ListTeamUpRoomsResponse,
    /// The filter control.
    pub dropdowns: Dropdowns,
    /// Whether the notice is shown.
    pub alert: bool,
}

/// What a `RoomList` holds.
pub struct RoomListView {
    pub params: ListTeamUpRoomsRequestView,
    pub res: ListTeamUpRoomsResponseView,
    pub dropdowns: DropdownsView,
    pub alert: bool,
}

/// The cards of the rooms in `rooms` that are listed at the instant `now`:
/// one for each room that is not hidden, in the order of the rooms, each with
/// the room's index in `rooms`.
pub open spec fn cards(rooms: Seq<TeamUpRoomView>, now: int) -> Seq<RoomCardView>
    decreases rooms.len(),
{
    if rooms.len() == 0 {
        Seq::empty()
    } else {
        let earlier = cards(rooms.drop_last(), now);
        if rooms.last().hidden() {
            earlier
        } else {
            earlier.push(RoomCardView::of_room(rooms.len() - 1, rooms.last(), now))
        }
    }
}

impl RoomListView {
    /// The room list as it starts when the session holds the filter `stored`
    /// (`None`: it holds none, or none that can be read): criteria for the
    /// chosen game type, no rooms yet, no notice.
    pub open spec fn initial(stored: Option<Seq<char>>) -> RoomListView {
        let filter = match stored {
            Some(filter) => filter,
            None => Seq::empty(),
        };
        let game_type = ListTeamUpRoomsRequestView::chosen_game_type(filter);
        RoomListView {
            params: ListTeamUpRoomsRequestView::of_game_type(game_type),
            res: ListTeamUpRoomsResponseView::empty(),
            dropdowns: DropdownsView::showing(game_type),
            alert: false,
        }
    }

    /// The game type that the criteria ask for; empty where they name none.
    pub open spec fn game_type(self) -> Seq<char> {
        match self.params.cate1 {
            Some(game_type) => game_type,
            None => Seq::empty(),
        }
    }

    /// The criteria ask for a positive page of positive size, and the filter
    /// control names the game type that the criteria ask for.
    pub open spec fn wf(self) -> bool {
        &&& self.params.wf()
        &&& self.dropdowns == DropdownsView::showing(self.game_type())
    }

    /// Whether the room list can take the message. A kick-out must point at
    /// a room of the list.
    pub open spec fn accepts(self, msg: MsgView) -> bool {
        msg matches MsgView::KickOut(index, _, _) ==> index < self.res.rooms.len()
    }

    /// The room list after the message `msg`.
    pub open spec fn next(self, msg: MsgView) -> RoomListView {
        match msg {
            MsgView::Init(found) => RoomListView { res: found, ..self },
            MsgView::KickOut(index, _, _) => RoomListView {
                res: ListTeamUpRoomsResponseView {
                    rooms: self.res.rooms.update(
                        index as int,
                        self.res.rooms[index as int].suppressed(),
                    ),
                    ..self.res
                },
                alert: true,
                ..self
            },
            MsgView::UpdateGameType(game_type) => RoomListView {
                params: self.params.with_game_type(game_type),
                dropdowns: DropdownsView {
                    title: DropdownsView::title_of(game_type),
                    ..self.dropdowns
                },
                ..self
            },
            MsgView::AlertStop(shown) => RoomListView { alert: shown, ..self },
            MsgView::Refresh => self,
        }
    }

    /// What the message `msg` asks of the shell, and whether the dashboard
    /// is to be drawn again at once.
    pub open spec fn reaction(self, msg: MsgView) -> UpdateView {
        match msg {
            MsgView::Init(_) => UpdateView { render: true, action: ActionView::Idle },
            MsgView::KickOut(_, room_id, players) => UpdateView {
                render: true,
                action: ActionView::KickOut { room_id, players },
            },
            MsgView::UpdateGameType(game_type) => UpdateView {
                render: true,
                action: ActionView::StoreAndFetch {
                    game_type,
                    params: self.params.with_game_type(game_type),
                },
            },
            MsgView::AlertStop(_) => UpdateView { render: true, action: ActionView::Idle },
            MsgView::Refresh => UpdateView {
                render: false,
                action: ActionView::Fetch(self.params),
            },
        }
    }

    /// What drawing the dashboard asks of the shell: the first drawing
    /// starts the first search.
    pub open spec fn on_rendered(self, first_render: bool) -> ActionView {
        if first_render {
            ActionView::Fetch(self.params)
        } else {
            ActionView::Idle
        }
    }

    /// The dashboard at the instant `now`. Without rooms it is the filter
    /// control alone. With rooms, hidden ones too, it is the notice if it is
    /// shown, the filter control, the refresh button, and the cards of the
    /// rooms that are listed.
    pub open spec fn page(self, now: int) -> PageView {
        if self.res.rooms.len() == 0 {
            PageView::FilterOnly { dropdowns: self.dropdowns }
        } else {
            PageView::Listing {
                alert: if self.alert {
                    Some(ALERT_TEXT@)
                } else {
                    None
                },
                dropdowns: self.dropdowns,
                refresh: REFRESH_LABEL@,
                lis: cards(self.res.rooms, now),
            }
        }
    }
}

impl DeepView for RoomList {
    type V = RoomListView;

    open spec fn deep_view(&self) -> RoomListView {
        RoomListView {
            params: self.params@,
            res: self.res@,
            dropdowns: self.dropdowns@,
            alert: self.alert,
        }
    }
}

impl RoomList {
    /// Starts the room list from the filter that the session holds under
    /// `FILTER_KEY`. `stored` is `None` when the session holds none or the
    /// shell could not read it; that counts as an empty filter, and an empty
    /// filter stands for the default game type.
    pub fn create(stored: Option<String>) -> (list: RoomList)
        ensures
            list.deep_view() == RoomListView::initial(stored.deep_view()),
            list.deep_view().wf(),
    {
        let filter = match stored {
            Some(filter) => filter,
            None => String::new(),
        };
        let params = ListTeamUpRoomsRequest::build(filter.as_str());
        let dropdowns = match &params.cate1 {
            Some(game_type) => Dropdowns::showing(game_type.as_str()),
            None => Dropdowns::showing(""),
        };
        RoomList { params, res: ListTeamUpRoomsResponse::default(), dropdowns, alert: false }
    }

    /// Takes one message: changes the room list and says what the shell is
    /// to do.
    ///
    /// - `Init`: the answer replaces the one held, whole; rooms hidden since
    ///   the last answer are not carried over.
    /// - `KickOut`: the room at the index is hidden, the notice is shown, and
    ///   the shell is to send the kick-out. The room stays hidden until the
    ///   next answer, whatever becomes of the kick-out.
    /// - `UpdateGameType`: the criteria and the title of the filter take the
    ///   game type, and the shell is to store it and to search.
    /// - `AlertStop`: the notice is shown or taken away as the message says.
    /// - `Refresh`: nothing changes and nothing is drawn; the shell is to
    ///   search with the criteria as they are.
    pub fn update(&mut self, msg: Msg) -> (out: Update)
        requires
            old(self).deep_view().accepts(msg@),
        ensures
            final(self).deep_view() == old(self).deep_view().next(msg@),
            out@ == old(self).deep_view().reaction(msg@),
            old(self).deep_view().wf() ==> final(self).deep_view().wf(),
    {
        match msg {
            Msg::Init(found) => {
                self.res = found;
                Update { render: true, action: Action::Idle }
            },
            Msg::KickOut((index, room_id, players)) => {
                let ghost before = self.res.rooms.deep_view();
                self.res.rooms[index].is_display = Some(true);
                self.alert = true;
                assert(self.res.rooms.deep_view() =~= before.update(
                    index as int,
                    before[index as int].suppressed(),
                ));
                Update { render: true, action: Action::KickOut { room_id, players } }
            },
            Msg::UpdateGameType(game_type) => {
                self.params.cate1 = Some(game_type.clone());
                self.dropdowns.title = joined(TITLE_PREFIX, game_type.as_str());
                let params = self.params.clone();
                Update { render: true, action: Action::StoreAndFetch { game_type, params } }
            },
            Msg::AlertStop(shown) => {
                self.alert = shown;
                Update { render: true, action: Action::Idle }
            },
            Msg::Refresh => {
                Update { render: false, action: Action::Fetch(self.params.clone()) }
            },
        }
    }

    /// Says what the shell is to do after the dashboard was drawn: after the
    /// first drawing, the first search.
    pub fn rendered(&self, first_render: bool) -> (action: Action)
        ensures
            action@ == self.deep_view().on_rendered(first_render),
    {
        if first_render {
            Action::Fetch(self.params.clone())
        } else {
            Action::Idle
        }
    }

    /// The cards of the rooms that are listed at the instant `now`, in
    /// seconds since the epoch.
    pub fn room_list(&self, now: i64) -> (lis: Vec<RoomCard>)
        ensures
            lis.deep_view() == cards(self.res.rooms.deep_view(), now as int),
    {
        let rooms = &self.res.rooms;
        let mut lis: Vec<RoomCard> = Vec::new();
        let mut index: usize = 0;
        while index < rooms.len()
            invariant
                index <= rooms.len(),
                lis.deep_view() == cards(rooms.deep_view().take(index as int), now as int),
            decreases rooms.len() - index,
        {
            let item = &rooms[index];
            let ghost shown = lis.deep_view();
            let ghost upto = rooms.deep_view().take(index as int + 1);
            assert(upto.drop_last() =~= rooms.deep_view().take(index as int));
            if !item.is_hidden() {
                let card = get_li(index, item, button_class(item.classify(now)));
                lis.push(card);
                assert(lis.deep_view() =~= shown.push(card@));
            }
            index = index + 1;
        }
        assert(rooms.deep_view().take(index as int) =~= rooms.deep_view());
        lis
    }

    /// The dashboard at the instant `now`, in seconds since the epoch.
    pub fn view_at(&self, now: i64) -> (page: Page)
        ensures
            page@ == self.deep_view().page(now as int),
    {
        if !self.res.rooms.is_empty() {
            let lis = self.room_list(now);
            let alert = if self.alert {
                Some(ALERT_TEXT.to_owned())
            } else {
                None
            };
            Page::Listing {
                alert,
                dropdowns: self.dropdowns.clone(),
                refresh: REFRESH_LABEL.to_owned(),
                lis,
            }
        } else {
            Page::FilterOnly { dropdowns: self.dropdowns.clone() }
        }
    }

    /// The dashboard now. The instant is read from the machine's clock, once
    /// for the whole page.
    pub fn view(&self) -> (page: Page)
        ensures
            exists|now: i64| page@ == self.deep_view().page(now as int),
    {
        let now = current_timestamp();
        self.view_at(now)
    }

    /// Makes the search with the criteria `params` ready to be sent. `host`
    /// is what the session holds under `HOST_KEY`, `None` when it holds
    /// nothing there or the shell could not read it.
    pub fn get_room_list(host: Option<String>, params: ListTeamUpRoomsRequest) -> (call: SearchCall)
        ensures
            call.url@ == address(host.deep_view(), URL@),
            call.body@ == params@,
    {
        SearchCall { url: endpoint(&host, URL), body: params }
    }

    /// The message that ends a search. `payload` is the answer that came
    /// back, `None` when the request failed, the reply could not be read, or
    /// it held no answer; the room list then gets the empty answer.
    pub fn fetched(payload: Option<ListTeamUpRoomsResponse>) -> (msg: Msg)
        ensures
            msg@ == MsgView::Init(ListTeamUpRoomsResponseView::of_outcome(payload.deep_view())),
    {
        Msg::Init(ListTeamUpRoomsResponse::of_outcome(payload))
    }

    /// Makes the kick-out of the players `msg` from the room `room_id` ready
    /// to be sent: the request names the players by their user identifiers.
    /// `host` is what the session holds under `HOST_KEY`, `None` when it
    /// holds nothing there or the shell could not read it.
    pub fn send_kick_out(
        host: Option<String>,
        room_id: i64,
        msg: Vec<PlayerInfo>,
    ) -> (call: KickOutCall)
        ensures
            call.url@ == address(host.deep_view(), KICK_OUT@),
            call.body@ == KickOutRoomsRequestView::removing(room_id, msg.deep_view()),
    {
        KickOutCall {
            url: endpoint(&host, KICK_OUT),
            body: KickOutRoomsRequest::removing(room_id, msg),
        }
    }
}

} // verus!
