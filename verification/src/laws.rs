//! What holds of the room list whatever it holds and whatever happens to it.

use vstd::prelude::*;
use crate::card::RoomCardView;
use crate::page::PageView;
use crate::room::{PlayerInfoView, TeamUpRoomView};
use crate::search::{
    KickOutRoomsRequestView, ListTeamUpRoomsRequestView, ListTeamUpRoomsResponseView,
};
use crate::state::{cards, ActionView, MsgView, RoomListView};

verus! {

/// The list shows the rooms that are not hidden, and no others: each card is
/// the card of a room that is not hidden, at that room's index; the cards
/// stand in the order of the rooms; and every room that is not hidden has a
/// card. This holds at every instant: what the clock says has no part in it.
pub proof fn lemma_cards_are_the_rooms_not_hidden(rooms: Seq<TeamUpRoomView>, now: int)
    ensures
        ({
            let shown = cards(rooms, now);
            &&& shown.len() <= rooms.len()
            &&& forall|k: int|
                0 <= k < shown.len() ==> {
                    let index = (#[trigger] shown[k]).index;
                    &&& 0 <= index < rooms.len()
                    &&& !rooms[index].hidden()
                    &&& shown[k] == RoomCardView::of_room(index, rooms[index], now)
                }
            &&& forall|j: int, k: int|
                #![trigger shown[j], shown[k]]
                0 <= j < k < shown.len() ==> shown[j].index < shown[k].index
            &&& forall|index: int|
                0 <= index < rooms.len() && !(#[trigger] rooms[index]).hidden() ==> exists|k: int|
                    0 <= k < shown.len() && (#[trigger] shown[k]).index == index
        }),
    decreases rooms.len(),
{
    if rooms.len() > 0 {
        let earlier = rooms.drop_last();
        lemma_cards_are_the_rooms_not_hidden(earlier, now);
        let shown = cards(rooms, now);
        let before = cards(earlier, now);
        assert forall|index: int| 0 <= index < rooms.len() && !(#[trigger] rooms[index]).hidden()
        implies exists|k: int| 0 <= k < shown.len() && (#[trigger] shown[k]).index == index by {
            if index < earlier.len() {
                assert(earlier[index] == rooms[index]);
                let k = choose|k: int|
                    0 <= k < before.len() && (#[trigger] before[k]).index == index;
                assert(shown[k] == before[k]);
            } else {
                assert(shown[shown.len() - 1].index == index);
            }
        }
    }
}

/// A room marked with `Some(true)` has no card, stale or not.
pub proof fn lemma_suppressed_room_is_not_shown(rooms: Seq<TeamUpRoomView>, index: int, now: int)
    requires
        0 <= index < rooms.len(),
        rooms[index].is_display == Some(true),
    ensures
        forall|k: int|
            0 <= k < cards(rooms, now).len() ==> (#[trigger] cards(rooms, now)[k]).index != index,
{
    lemma_cards_are_the_rooms_not_hidden(rooms, now);
}

/// The dashboard never shows a room marked with `Some(true)`: at no instant
/// does a card of the page stand for it.
pub proof fn lemma_page_shows_no_suppressed_room(list: RoomListView, index: int, now: int)
    requires
        0 <= index < list.res.rooms.len(),
        list.res.rooms[index].is_display == Some(true),
    ensures
        list.page(now) matches PageView::Listing { lis, .. } ==> forall|k: int|
            0 <= k < lis.len() ==> (#[trigger] lis[k]).index != index,
{
    lemma_suppressed_room_is_not_shown(list.res.rooms, index, now);
}

/// The instant decides how a room is shown, never whether or where: at two
/// instants the list has the same number of cards, and two cards at the same
/// place are cards of the same room.
pub proof fn lemma_instant_changes_no_place(rooms: Seq<TeamUpRoomView>, now: int, later: int)
    ensures
        cards(rooms, now).len() == cards(rooms, later).len(),
        forall|k: int|
            #![trigger cards(rooms, now)[k]]
            #![trigger cards(rooms, later)[k]]
            0 <= k < cards(rooms, now).len() ==> cards(rooms, now)[k].index == cards(
                rooms,
                later,
            )[k].index,
    decreases rooms.len(),
{
    if rooms.len() > 0 {
        lemma_instant_changes_no_place(rooms.drop_last(), now, later);
    }
}

/// A room list is well formed when it starts, and every message leaves a
/// well-formed room list well formed.
pub proof fn lemma_wf_is_kept(stored: Option<Seq<char>>, list: RoomListView, msg: MsgView)
    ensures
        RoomListView::initial(stored).wf(),
        list.wf() ==> list.next(msg).wf(),
{
}

/// Fetching again changes nothing when the service has nothing new. Asking
/// leaves the room list as it is and searches with the criteria as they
/// are; the answer `found` then makes the room list hold `found`, so where
/// it already held `found`, the room list and the dashboard are what they
/// were.
pub proof fn lemma_refresh_is_idempotent(
    list: RoomListView,
    found: ListTeamUpRoomsResponseView,
    now: int,
)
    ensures
        ({
            let asked = list.next(MsgView::Refresh);
            let answered = asked.next(MsgView::Init(found));
            &&& asked == list
            &&& list.reaction(MsgView::Refresh).action == ActionView::Fetch(list.params)
            &&& answered == RoomListView { res: found, ..list }
            &&& list.res == found ==> answered == list && answered.page(now) == list.page(now)
        }),
{
}

/// A change of filter reaches the criteria and the session alike. The
/// criteria ask for exactly the game type chosen; the shell is told to store
/// exactly that game type before it searches with the new criteria; and a
/// room list started from what was stored asks for the same game type and
/// shows the same title, unless the chosen game type is the empty text, for
/// which it asks for the default. The rooms held, hidden ones too, and the
/// notice stay as they are until the answer comes.
pub proof fn lemma_filter_change_is_stored(list: RoomListView, game_type: Seq<char>)
    ensures
        ({
            let changed = list.next(MsgView::UpdateGameType(game_type));
            let restarted = RoomListView::initial(Some(game_type));
            &&& changed.params.cate1 == Some(game_type)
            &&& changed.params == list.params.with_game_type(game_type)
            &&& changed.res == list.res
            &&& changed.alert == list.alert
            &&& list.reaction(MsgView::UpdateGameType(game_type)).action
                == ActionView::StoreAndFetch { game_type, params: changed.params }
            &&& restarted.params.cate1 == Some(
                ListTeamUpRoomsRequestView::chosen_game_type(game_type),
            )
            &&& game_type.len() > 0 ==> restarted.params.cate1 == changed.params.cate1
                && restarted.dropdowns.title == changed.dropdowns.title
        }),
{
}

/// Of two answers the one that arrives last stays, whichever search was
/// asked for first: nothing of an earlier answer is kept.
pub proof fn lemma_last_answer_wins(
    list: RoomListView,
    first: ListTeamUpRoomsResponseView,
    last: ListTeamUpRoomsResponseView,
)
    ensures
        list.next(MsgView::Init(first)).next(MsgView::Init(last)).res == last,
        list.next(MsgView::Init(first)).next(MsgView::Init(last)) == list.next(
            MsgView::Init(last),
        ),
{
}

/// A kick-out hides the room it points at and no other, shows the notice,
/// and leaves the criteria and the filter alone; the room has no card from
/// then on, until an answer replaces the rooms. The shell is told to send
/// the kick-out for the room and the players of the message, and the request
/// made for them names the room and each player's user identifier, in the
/// order of the players.
pub proof fn lemma_kick_out_hides_the_room(
    list: RoomListView,
    index: usize,
    room_id: i64,
    players: Seq<PlayerInfoView>,
    now: int,
)
    requires
        list.accepts(MsgView::KickOut(index, room_id, players)),
    ensures
        ({
            let after = list.next(MsgView::KickOut(index, room_id, players));
            let shown = cards(after.res.rooms, now);
            let request = KickOutRoomsRequestView::removing(room_id, players);
            &&& after.alert
            &&& after.params == list.params
            &&& after.dropdowns == list.dropdowns
            &&& after.res.rooms.len() == list.res.rooms.len()
            &&& after.res.rooms[index as int] == list.res.rooms[index as int].suppressed()
            &&& forall|other: int|
                0 <= other < list.res.rooms.len() && other != index ==> after.res.rooms[other]
                    == list.res.rooms[other]
            &&& forall|k: int| 0 <= k < shown.len() ==> (#[trigger] shown[k]).index != index
            &&& list.reaction(MsgView::KickOut(index, room_id, players)).action
                == ActionView::KickOut { room_id, players }
            &&& request.room_id == room_id
            &&& request.user_ids.len() == players.len()
            &&& forall|k: int|
                0 <= k < players.len() ==> request.user_ids[k] == (#[trigger] players[k]).user_id
        }),
{
    let after = list.next(MsgView::KickOut(index, room_id, players));
    lemma_suppressed_room_is_not_shown(after.res.rooms, index as int, now);
}

} // verus!
