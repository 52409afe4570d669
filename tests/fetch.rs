use enka_rs::decode::DecodeError;
use enka_rs::gi::api::player::info::Info;
use enka_rs::gi::api::{Equip, ProfilePicture};
use enka_rs::gi::{
    DEFAULT_USER_AGENT, FetchError, build_path, build_request, builds_path, error_message, failure,
    handle_response, hoyo_path, hoyos_path, player_outcome, player_path, profile_path,
};

const PLAYER_INFO: &str = r#"{"nickname":"Traveler","level":60,"signature":"hi","worldLevel":8,"nameCardId":210001,"finishAchievementNum":900,"profilePicture":{"id":1}}"#;

fn info_body() -> String {
    format!(r#"{{"playerInfo":{},"ttl":60,"uid":"12345"}}"#, PLAYER_INFO)
}

const AVATAR: &str = r#"{"avatarId":10000002,"propMap":{"4001":{"type":4001,"ival":"90","val":"90"}},"fightPropMap":{"1":1000.5,"2":12},"skillDepotId":201,"inherentProudSkillList":[322301],"skillLevelMap":{"10021":9},"equipList":[{"itemId":11509,"weapon":{"level":90,"promoteLevel":6,"affixMap":{"111509":0}},"flat":{"nameTextMapHash":"123","rankLevel":5,"itemType":"ITEM_WEAPON","icon":"UI_Equip","weaponStats":[{"appendPropId":"FIGHT_PROP_BASE_ATTACK","statValue":608}]}}]}"#;

#[test]
fn documented_status_messages() {
    assert_eq!(error_message(400), "Bad Request: Wrong UID format");
    assert_eq!(error_message(404), "Not Found: Player does not exist (MHY server response)");
    assert_eq!(error_message(424), "Failed Dependency: Game maintenance or broken after update");
    assert_eq!(error_message(429), "Too Many Requests: Rate-limited (by enka server or MHY server)");
    assert_eq!(error_message(500), "Internal Server Error: General server issue");
    assert_eq!(error_message(503), "Service Unavailable: Possible major failure on enka end");
}

#[test]
fn other_status_messages() {
    assert_eq!(error_message(418), "I'm a teapot");
    assert_eq!(error_message(401), "Unauthorized");
    assert_eq!(error_message(599), "Unknown Error");
    assert_eq!(error_message(42), "Unknown Error");
}

#[test]
fn failure_text_names_status_and_meaning() {
    match failure(429) {
        FetchError::Response(m) => assert_eq!(
            m,
            "HTTP 429 Too Many Requests: Too Many Requests: Rate-limited (by enka server or MHY server)"
        ),
        other => panic!("unexpected {:?}", other),
    }
    match failure(599) {
        FetchError::Response(m) => assert_eq!(m, "HTTP 599 <unknown status code>: Unknown Error"),
        other => panic!("unexpected {:?}", other),
    }
}

#[test]
fn not_found_ignores_body() {
    for body in ["", "{}", "not json", &info_body()] {
        match handle_response::<Info>(404, body) {
            Err(FetchError::Response(m)) => {
                assert_eq!(m, "HTTP 404 Not Found: Not Found: Player does not exist (MHY server response)");
                assert!(m.ends_with("Not Found: Player does not exist (MHY server response)"));
            }
            other => panic!("unexpected {:?}", other),
        }
    }
}

#[test]
fn player_info_only() {
    assert_eq!(player_path(12345, true), "/api/uid/12345/?info");
    let (info, avatars) = player_outcome(true, 200, &info_body()).unwrap();
    assert!(avatars.is_none());
    assert_eq!(info.uid, "12345");
    assert_eq!(info.ttl, 60);
    assert_eq!(info.player_info.nickname, "Traveler");
    assert_eq!(info.player_info.world_level, Some(8));
    assert_eq!(info.player_info.profile_picture, ProfilePicture::Id(1));
    assert!(info.owner.is_none());
}

#[test]
fn player_full_record() {
    assert_eq!(player_path(12345, false), "/api/uid/12345/");
    let body = format!(r#"{{"playerInfo":{},"ttl":60,"uid":"12345","avatarInfoList":[{}]}}"#, PLAYER_INFO, AVATAR);
    let (info, avatars) = player_outcome(false, 200, &body).unwrap();
    assert_eq!(info.uid, "12345");
    let avatars = avatars.unwrap();
    assert_eq!(avatars.len(), 1);
    assert_eq!(avatars[0].avatar_id, 10000002);
    assert_eq!(avatars[0].skill_level_map.entries, vec![(10021u64, 9u64)]);
    match &avatars[0].equip_list[0] {
        Equip::Weapon(w) => {
            assert_eq!(w.item_id, 11509);
            assert_eq!(w.weapon.level, 90);
        }
        other => panic!("unexpected {:?}", other),
    }
}

#[test]
fn full_record_rejects_extra_member() {
    let body = format!(r#"{{"playerInfo":{},"ttl":60,"uid":"1","region":"EU"}}"#, PLAYER_INFO);
    match player_outcome(false, 200, &body) {
        Err(FetchError::Deserialization(DecodeError::UnknownField(f))) => assert_eq!(f, "region"),
        other => panic!("unexpected {:?}", other),
    }
    let body = format!(r#"{{"playerInfo":{},"ttl":60,"uid":"1"}}"#, PLAYER_INFO);
    let (_, avatars) = player_outcome(false, 200, &body).unwrap();
    assert!(avatars.is_none());
}

#[test]
fn owner_rejects_extra_member() {
    let owner = r#"{"hash":"h","username":"u","profile":{"bio":"","level":1},"id":3,"extra":1}"#;
    let body = format!(r#"{{"playerInfo":{},"ttl":60,"uid":"1","owner":{}}}"#, PLAYER_INFO, owner);
    assert!(matches!(
        player_outcome(true, 200, &body),
        Err(FetchError::Deserialization(DecodeError::UnknownField(_)))
    ));
    let body = body.replace(r#","extra":1"#, "");
    let (info, _) = player_outcome(true, 200, &body).unwrap();
    assert_eq!(info.owner.unwrap().info.username, "u");
}

#[test]
fn info_only_rejects_extra_member() {
    let body = format!(r#"{{"playerInfo":{},"ttl":60,"uid":"1","extra":true}}"#, PLAYER_INFO);
    match player_outcome(true, 200, &body) {
        Err(FetchError::Deserialization(DecodeError::UnknownField(f))) => assert_eq!(f, "extra"),
        other => panic!("unexpected {:?}", other),
    }
}

#[test]
fn info_only_missing_member_fails() {
    let body = format!(r#"{{"playerInfo":{},"uid":"1"}}"#, PLAYER_INFO);
    assert!(matches!(player_outcome(true, 200, &body), Err(FetchError::Deserialization(_))));
}

#[test]
fn malformed_body_is_json_error() {
    assert!(matches!(handle_response::<Info>(200, "{\"playerInfo\":"), Err(FetchError::Json(_))));
}

#[test]
fn endpoint_paths() {
    assert_eq!(profile_path("alice"), "/api/profile/alice/?format=json");
    assert_eq!(hoyos_path("alice"), "/api/profile/alice/hoyos");
    assert_eq!(hoyo_path("alice", "h4sh"), "/api/profile/alice/hoyos/h4sh/?format=json");
    assert_eq!(builds_path("alice", "h4sh"), "/api/profile/alice/hoyos/h4sh/builds");
    assert_eq!(build_path("alice", "h4sh", 77), "/api/profile/alice/hoyos/h4sh/builds/77");
    assert_eq!(player_path(0, false), "/api/uid/0/");
}

#[test]
fn request_user_agent() {
    let r = build_request("/api/uid/1/", None);
    assert_eq!(r.url, "https://enka.network/api/uid/1/");
    assert_eq!(r.user_agent, DEFAULT_USER_AGENT);
    let r = build_request("/api/profile/bob/hoyos", Some("me/1".to_string()));
    assert_eq!(r.url, "https://enka.network/api/profile/bob/hoyos");
    assert_eq!(r.user_agent, "me/1");
}
