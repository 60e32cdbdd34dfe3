use teamup_rooms::search::endpoint;
use teamup_rooms::text::{joined, same_text, signed_text, unsigned_text};
use teamup_rooms::{
    Dropdowns, GameType, KickOutRoomsRequest, ListTeamUpRoomsRequest, ListTeamUpRoomsResponse,
    PlayerInfo, RoomState,
};

#[test]
fn numerals_are_exact() {
    assert_eq!(unsigned_text(0), "0");
    assert_eq!(unsigned_text(7), "7");
    assert_eq!(unsigned_text(10), "10");
    assert_eq!(unsigned_text(1000), "1000");
    assert_eq!(unsigned_text(9_876_543_210), "9876543210");
    assert_eq!(unsigned_text(u64::MAX), "18446744073709551615");
    assert_eq!(signed_text(0), "0");
    assert_eq!(signed_text(501), "501");
    assert_eq!(signed_text(-1), "-1");
    assert_eq!(signed_text(-120), "-120");
    assert_eq!(signed_text(i64::MAX), "9223372036854775807");
    assert_eq!(signed_text(i64::MIN), "-9223372036854775808");
}

#[test]
fn numerals_agree_with_the_standard_library() {
    let mut n: u64 = 1;
    for _ in 0..64 {
        assert_eq!(unsigned_text(n), n.to_string());
        assert_eq!(unsigned_text(n - 1), (n - 1).to_string());
        let i = n as i64;
        assert_eq!(signed_text(i), i.to_string());
        assert_eq!(signed_text(i.wrapping_neg()), i.wrapping_neg().to_string());
        n = n.wrapping_mul(2);
    }
    for k in 0..2000i64 {
        assert_eq!(signed_text(k - 1000), (k - 1000).to_string());
    }
}

#[test]
fn texts_compare_and_join() {
    assert!(same_text("War3", "War3"));
    assert!(!same_text("War3", "war3"));
    assert!(!same_text("War3", "War"));
    assert!(same_text("", ""));
    assert!(same_text("踢出", "踢出"));
    assert_eq!(joined("对战类型: ", "RPG"), "对战类型: RPG");
    assert_eq!(joined("", ""), "");
    assert_eq!(joined("a", ""), "a");
}

#[test]
fn game_type_reads_names_and_falls_back() {
    assert_eq!(GameType::from("War3"), GameType::War3);
    assert_eq!(GameType::from("RPG"), GameType::RPG);
    assert_eq!(GameType::from("CH3C"), GameType::CH3C);
    assert_eq!(GameType::from(""), GameType::War3);
    assert_eq!(GameType::from("rpg"), GameType::War3);
    assert_eq!(GameType::from("Dota"), GameType::War3);
    assert_eq!(GameType::from(" RPG"), GameType::War3);
    for game in [GameType::War3, GameType::RPG, GameType::CH3C] {
        assert_eq!(GameType::from(game.name()), game);
        assert_eq!(game.name(), format!("{:?}", game));
    }
}

#[test]
fn room_state_names_are_the_variant_names() {
    let all = [
        RoomState::WaitingFullfill,
        RoomState::WaitingReady,
        RoomState::Ready,
        RoomState::Matching,
        RoomState::Gaming,
        RoomState::GameOver,
    ];
    for state in all {
        assert_eq!(state.name(), format!("{:?}", state));
    }
    assert_eq!(RoomState::WaitingFullfill.name(), "WaitingFullfill");
    assert_eq!(RoomState::GameOver.name(), "GameOver");
}

#[test]
fn endpoint_joins_host_and_path() {
    assert_eq!(endpoint(&Some("http://h".to_string()), "/p?q=1"), "http://h/p?q=1");
    assert_eq!(endpoint(&None, "/p"), "/p");
    assert_eq!(endpoint(&Some(String::new()), "/p"), "/p");
}

#[test]
fn defaults_are_as_documented() {
    let params = ListTeamUpRoomsRequest::default();
    assert_eq!(
        params,
        ListTeamUpRoomsRequest {
            cate1: Some("War3".to_string()),
            cate2: None,
            tags: None,
            keywords: None,
            map_id: None,
            page_size: 1000,
            page_index: 1,
            activity_game_type: None,
            stream_observer: None,
        }
    );
    let answer = ListTeamUpRoomsResponse::default();
    assert_eq!(
        answer,
        ListTeamUpRoomsResponse {
            page_size: 0,
            page_index: 0,
            total: 0,
            keywords: None,
            rooms: vec![],
        }
    );
}

#[test]
fn copies_equal_what_they_copy() {
    let params = ListTeamUpRoomsRequest {
        cate1: Some("RPG".to_string()),
        cate2: Some("x".to_string()),
        tags: Some(vec!["a".to_string(), "b".to_string()]),
        keywords: Some("k".to_string()),
        map_id: Some("m".to_string()),
        page_size: 5,
        page_index: 2,
        activity_game_type: Some("g".to_string()),
        stream_observer: Some(true),
    };
    assert_eq!(params.clone(), params);
    let player = PlayerInfo {
        user_id: "u".to_string(),
        nick: Some("n".to_string()),
        activity_timeout: Some(-3),
    };
    assert_eq!(player.clone(), player);
    let request = KickOutRoomsRequest { user_ids: vec!["u".to_string()], room_id: 9 };
    assert_eq!(request.clone(), request);
    let dropdowns = Dropdowns::showing("CH3C");
    assert_eq!(dropdowns.clone(), dropdowns);
    assert_eq!(dropdowns.title, "对战类型: CH3C");
}
