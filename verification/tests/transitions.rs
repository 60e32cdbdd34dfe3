use teamup_rooms::search::{KICK_OUT, URL};
use teamup_rooms::{
    Action, GameType, KickOutRoomsRequest, ListTeamUpRoomsRequest, ListTeamUpRoomsResponse, Msg,
    Page, PlayerInfo, RoomList, RoomState, RoomType, TeamUpRoom,
};

fn player(user_id: &str) -> PlayerInfo {
    PlayerInfo { user_id: user_id.to_string(), nick: None, activity_timeout: None }
}

fn room(id: i64, last_active_time: i64, players: Vec<PlayerInfo>) -> TeamUpRoom {
    TeamUpRoom {
        id,
        name: format!("room {}", id),
        room_no: format!("no-{}", id),
        has_secret: false,
        secret: None,
        auto_kick: false,
        game_type: GameType::War3,
        room_type: RoomType::Custom,
        room_state: RoomState::WaitingReady,
        players,
        max_players: 8,
        matching_time: None,
        match_start_time: None,
        match_end_time: None,
        last_game_id: None,
        activity_id: None,
        last_active_time,
        created_at: 0,
        referees_slots: false,
        is_display: None,
    }
}

fn answer(rooms: Vec<TeamUpRoom>) -> ListTeamUpRoomsResponse {
    ListTeamUpRoomsResponse {
        page_size: 1000,
        page_index: 1,
        total: rooms.len() as u64,
        keywords: None,
        rooms,
    }
}

fn copy_of(list: &RoomList) -> RoomList {
    RoomList {
        params: list.params.clone(),
        res: list.res.clone(),
        dropdowns: list.dropdowns.clone(),
        alert: list.alert,
    }
}

fn shown_ids(list: &RoomList, now: i64) -> Vec<i64> {
    list.room_list(now).iter().map(|card| card.room_id).collect()
}

#[test]
fn create_without_stored_filter_asks_for_the_default_game() {
    let list = RoomList::create(None);
    assert_eq!(list.params.cate1, Some("War3".to_string()));
    assert_eq!(list.params.page_size, 1000);
    assert_eq!(list.params.page_index, 1);
    assert_eq!(list.params.cate2, None);
    assert_eq!(list.params.tags, None);
    assert_eq!(list.params.keywords, None);
    assert_eq!(list.params.map_id, None);
    assert_eq!(list.params.activity_game_type, None);
    assert_eq!(list.params.stream_observer, None);
    assert_eq!(list.res, ListTeamUpRoomsResponse::default());
    assert_eq!(list.res.total, 0);
    assert!(list.res.rooms.is_empty());
    assert!(!list.alert);
    assert_eq!(list.dropdowns.title, "对战类型: War3");
    assert_eq!(list.dropdowns.lis, vec!["War3".to_string(), "RPG".to_string(), "CH3C".to_string()]);
}

#[test]
fn create_with_empty_stored_filter_asks_for_the_default_game() {
    let list = RoomList::create(Some(String::new()));
    assert_eq!(list, RoomList::create(None));
    assert_eq!(list.params, ListTeamUpRoomsRequest::default());
}

#[test]
fn create_with_stored_filter_asks_for_it() {
    let list = RoomList::create(Some("CH3C".to_string()));
    assert_eq!(list.params.cate1, Some("CH3C".to_string()));
    assert_eq!(list.params.page_size, 1000);
    assert_eq!(list.params.page_index, 1);
    assert_eq!(list.dropdowns.title, "对战类型: CH3C");
}

#[test]
fn first_render_starts_one_search() {
    let list = RoomList::create(None);
    assert_eq!(list.rendered(true), Action::Fetch(ListTeamUpRoomsRequest::default()));
    assert_eq!(list.rendered(false), Action::Idle);
}

#[test]
fn build_keeps_a_filter_and_replaces_an_empty_one() {
    assert_eq!(ListTeamUpRoomsRequest::build(""), ListTeamUpRoomsRequest::default());
    let rpg = ListTeamUpRoomsRequest::build("RPG");
    assert_eq!(rpg.cate1, Some("RPG".to_string()));
    assert_eq!((rpg.page_size, rpg.page_index), (1000, 1));
    let odd = ListTeamUpRoomsRequest::build("no such game");
    assert_eq!(odd.cate1, Some("no such game".to_string()));
}

#[test]
fn init_replaces_the_answer_whole() {
    let mut list = RoomList::create(None);
    let first = answer(vec![room(1, 0, vec![]), room(2, 0, vec![])]);
    let out = list.update(Msg::Init(first.clone()));
    assert!(out.render);
    assert_eq!(out.action, Action::Idle);
    assert_eq!(list.res, first);
    let second = answer(vec![room(9, 5, vec![player("u")])]);
    list.update(Msg::Init(second.clone()));
    assert_eq!(list.res, second);
    assert_eq!(list.params, ListTeamUpRoomsRequest::default());
}

#[test]
fn kick_out_hides_the_room_shows_the_notice_and_asks_to_send() {
    let mut list = RoomList::create(None);
    let rooms = vec![
        room(499, 0, vec![]),
        room(500, 0, vec![player("a")]),
        room(501, 0, vec![player("u1"), player("u2")]),
        room(502, 0, vec![]),
    ];
    list.update(Msg::Init(answer(rooms.clone())));
    let players = vec![player("u1"), player("u2")];
    let out = list.update(Msg::KickOut((2, 501, players.clone())));
    assert!(out.render);
    assert_eq!(out.action, Action::KickOut { room_id: 501, players: players.clone() });
    assert_eq!(list.res.rooms[2].is_display, Some(true));
    assert!(list.alert);
    assert_eq!(list.res.rooms[0], rooms[0]);
    assert_eq!(list.res.rooms[1], rooms[1]);
    assert_eq!(list.res.rooms[3], rooms[3]);
    assert_eq!(list.res.rooms.len(), 4);
    let mut hidden = rooms[2].clone();
    hidden.is_display = Some(true);
    assert_eq!(list.res.rooms[2], hidden);
    assert_eq!(shown_ids(&list, 0), vec![499, 500, 502]);

    let call = RoomList::send_kick_out(Some("https://ops.example".to_string()), 501, players);
    assert_eq!(
        call.body,
        KickOutRoomsRequest { user_ids: vec!["u1".to_string(), "u2".to_string()], room_id: 501 }
    );
    assert_eq!(call.url, format!("https://ops.example{}", KICK_OUT));
    assert!(call.url.starts_with("https://ops.example/api/teamup/room/kickout?token="));
}

#[test]
fn kick_out_of_nobody_sends_no_names() {
    let call = RoomList::send_kick_out(None, -7, vec![]);
    assert_eq!(call.body, KickOutRoomsRequest { user_ids: vec![], room_id: -7 });
    assert_eq!(call.url, KICK_OUT);
    assert_eq!(KickOutRoomsRequest::removing(3, vec![player("x")]).user_ids, vec!["x".to_string()]);
}

#[test]
fn a_hidden_room_comes_back_with_the_next_answer() {
    let mut list = RoomList::create(None);
    let served = answer(vec![room(7, 0, vec![player("a")])]);
    list.update(Msg::Init(served.clone()));
    list.update(Msg::KickOut((0, 7, vec![player("a")])));
    assert_eq!(shown_ids(&list, 0), Vec::<i64>::new());
    list.update(Msg::Init(served));
    assert_eq!(shown_ids(&list, 0), vec![7]);
    assert!(list.alert);
}

#[test]
fn filter_change_reaches_criteria_title_and_session() {
    let mut list = RoomList::create(None);
    let out = list.update(Msg::UpdateGameType("RPG".to_string()));
    assert!(out.render);
    assert_eq!(list.params.cate1, Some("RPG".to_string()));
    assert_eq!(list.dropdowns.title, "对战类型: RPG");
    assert_eq!(list.params.page_size, 1000);
    assert_eq!(list.params.page_index, 1);
    match out.action {
        Action::StoreAndFetch { game_type, params } => {
            assert_eq!(game_type, "RPG");
            assert_eq!(params, list.params);
            let again = RoomList::create(Some(game_type));
            assert_eq!(again.params, list.params);
            assert_eq!(again.dropdowns, list.dropdowns);
        }
        other => panic!("unexpected action {:?}", other),
    }
}

#[test]
fn filter_change_keeps_rooms_and_notice() {
    let mut list = RoomList::create(None);
    let served = answer(vec![room(1, 0, vec![])]);
    list.update(Msg::Init(served.clone()));
    list.update(Msg::KickOut((0, 1, vec![])));
    let held = list.res.clone();
    list.update(Msg::UpdateGameType("CH3C".to_string()));
    assert_eq!(list.res, held);
    assert!(list.alert);
}

#[test]
fn empty_filter_change_is_taken_as_it_is() {
    let mut list = RoomList::create(Some("RPG".to_string()));
    let out = list.update(Msg::UpdateGameType(String::new()));
    assert_eq!(list.params.cate1, Some(String::new()));
    assert_eq!(list.dropdowns.title, "对战类型: ");
    match out.action {
        Action::StoreAndFetch { game_type, params } => {
            assert_eq!(game_type, "");
            assert_eq!(params.cate1, Some(String::new()));
            assert_eq!(RoomList::create(Some(game_type)).params.cate1, Some("War3".to_string()));
        }
        other => panic!("unexpected action {:?}", other),
    }
}

#[test]
fn refresh_changes_nothing_and_searches_again() {
    let mut list = RoomList::create(Some("RPG".to_string()));
    let served = answer(vec![room(1, 100, vec![]), room(2, 200, vec![player("p")])]);
    list.update(Msg::Init(served.clone()));
    let before = copy_of(&list);
    let page_before = list.view_at(4000);
    let out = list.update(Msg::Refresh);
    assert!(!out.render);
    assert_eq!(out.action, Action::Fetch(before.params.clone()));
    assert_eq!(list, before);
    list.update(RoomList::fetched(Some(served)));
    assert_eq!(list, before);
    assert_eq!(list.view_at(4000), page_before);
}

#[test]
fn alert_stop_takes_the_notice_away() {
    let mut list = RoomList::create(None);
    list.update(Msg::Init(answer(vec![room(1, 0, vec![])])));
    list.update(Msg::KickOut((0, 1, vec![])));
    assert!(list.alert);
    let out = list.update(Msg::AlertStop(false));
    assert!(out.render);
    assert_eq!(out.action, Action::Idle);
    assert!(!list.alert);
    list.update(Msg::AlertStop(true));
    assert!(list.alert);
}

#[test]
fn failed_search_leaves_the_empty_answer() {
    let mut list = RoomList::create(None);
    list.update(Msg::Init(answer(vec![room(1, 0, vec![])])));
    let msg = RoomList::fetched(None);
    assert_eq!(msg, Msg::Init(ListTeamUpRoomsResponse::default()));
    list.update(msg);
    assert_eq!(list.res.total, 0);
    assert_eq!(list.res.page_size, 0);
    assert_eq!(list.res.page_index, 0);
    assert_eq!(list.res.keywords, None);
    assert!(list.res.rooms.is_empty());
    match list.view_at(0) {
        Page::FilterOnly { dropdowns } => assert_eq!(dropdowns, list.dropdowns),
        other => panic!("unexpected page {:?}", other),
    }
    match list.view() {
        Page::FilterOnly { dropdowns } => assert_eq!(dropdowns, list.dropdowns),
        other => panic!("unexpected page {:?}", other),
    }
}

#[test]
fn search_with_payload_hands_it_on() {
    let served = answer(vec![room(3, 0, vec![])]);
    assert_eq!(RoomList::fetched(Some(served.clone())), Msg::Init(served.clone()));
    assert_eq!(ListTeamUpRoomsResponse::of_outcome(Some(served.clone())), served);
    assert_eq!(ListTeamUpRoomsResponse::of_outcome(None), ListTeamUpRoomsResponse::default());
}

#[test]
fn the_answer_that_arrives_last_stays() {
    let mut list = RoomList::create(None);
    let first = list.update(Msg::UpdateGameType("RPG".to_string()));
    let second = list.update(Msg::UpdateGameType("CH3C".to_string()));
    let criteria_a = match first.action {
        Action::StoreAndFetch { params, .. } => params,
        other => panic!("unexpected action {:?}", other),
    };
    let criteria_b = match second.action {
        Action::StoreAndFetch { params, .. } => params,
        other => panic!("unexpected action {:?}", other),
    };
    assert_eq!(criteria_a.cate1, Some("RPG".to_string()));
    assert_eq!(criteria_b.cate1, Some("CH3C".to_string()));
    let answer_a = answer(vec![room(10, 0, vec![])]);
    let answer_b = answer(vec![room(20, 0, vec![]), room(21, 0, vec![])]);
    list.update(RoomList::fetched(Some(answer_b)));
    assert_eq!(shown_ids(&list, 0), vec![20, 21]);
    list.update(RoomList::fetched(Some(answer_a.clone())));
    assert_eq!(list.res, answer_a);
    assert_eq!(shown_ids(&list, 0), vec![10]);
    assert_eq!(list.params.cate1, Some("CH3C".to_string()));
}

#[test]
fn search_call_goes_to_the_host_of_the_session() {
    let params = ListTeamUpRoomsRequest::build("RPG");
    let call = RoomList::get_room_list(Some("http://10.0.0.1:8080".to_string()), params.clone());
    assert_eq!(call.url, "http://10.0.0.1:8080/api/teamup/room/search");
    assert_eq!(call.body, params);
    let bare = RoomList::get_room_list(None, params.clone());
    assert_eq!(bare.url, URL);
    assert_eq!(bare.url, "/api/teamup/room/search");
    let empty = RoomList::get_room_list(Some(String::new()), params);
    assert_eq!(empty.url, "/api/teamup/room/search");
}

#[test]
fn session_keys_are_fixed() {
    assert_eq!(teamup_rooms::state::FILTER_KEY, "room_list_game_type");
    assert_eq!(teamup_rooms::state::HOST_KEY, "current_env");
}
