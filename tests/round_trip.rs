use enka_rs::decode::{FromJson, JsonMap, ToJson};
use enka_rs::gi::api::Equip;
use enka_rs::gi::api::profile::hoyo::{GenshinHoyo, Hoyo, Region};
use enka_rs::gi::api::profile::info::{Info, Profile};
use enka_rs::gi::api::{
    EquipType, EquipWeapon, FlatWeapon, PlayerInfo, ProfilePicture, ShowAvatarInfo, SubStat,
    TextMapHash, Weapon,
};
use enka_rs::json::{Json, JsonNumber};

fn player_info() -> PlayerInfo {
    PlayerInfo {
        nickname: "Aether".to_string(),
        level: 60,
        signature: Some("sig".to_string()),
        world_level: None,
        name_card_id: 210001,
        finish_achievement_num: 999,
        tower_floor_index: Some(12),
        tower_level_index: Some(3),
        tower_star_index: None,
        theater_mode_index: None,
        theater_act_index: Some(10),
        theater_star_index: None,
        is_show_avatar_talent: Some(false),
        show_avatar_info_list: Some(vec![ShowAvatarInfo {
            avatar_id: 10000002,
            level: 90,
            energy_type: Some(2),
            costume_id: None,
            talent_level: Some(6),
        }]),
        show_name_card_id_list: Some(vec![]),
        profile_picture: ProfilePicture::AvatarId(10000007),
        fetter_count: None,
    }
}

#[test]
fn player_info_round_trip() {
    let v = player_info();
    let j = v.to_json();
    assert_eq!(PlayerInfo::from_json(&j).unwrap(), v);
}

#[test]
fn account_round_trip() {
    let v = Info {
        username: "bob".to_string(),
        profile: Profile {
            bio: "".to_string(),
            level: -1,
            signup_state: Some(3),
            avatar: None,
            image_url: None,
        },
        id: 5,
    };
    let j = v.to_json();
    assert_eq!(
        j,
        Json::Object(vec![
            ("username".to_string(), Json::Text("bob".to_string())),
            (
                "profile".to_string(),
                Json::Object(vec![
                    ("bio".to_string(), Json::Text("".to_string())),
                    ("level".to_string(), Json::Number(JsonNumber::NegInt(-1))),
                    ("signup_state".to_string(), Json::Number(JsonNumber::PosInt(3))),
                    ("avatar".to_string(), Json::Null),
                    ("image_url".to_string(), Json::Null),
                ])
            ),
            ("id".to_string(), Json::Number(JsonNumber::PosInt(5))),
        ])
    );
    assert_eq!(Info::from_json(&j).unwrap(), v);
}

#[test]
fn genshin_account_round_trip() {
    let v = GenshinHoyo {
        uid: Some(800000000),
        uid_public: true,
        public: false,
        live_public: true,
        verified: false,
        player_info: player_info(),
        hash: "h".to_string(),
        region: Region::TaiwanHonKongMacao,
        order: 3,
        avatar_order: Some(JsonMap { entries: vec![(10000002, 0), (10000007, 1)] }),
        hoyo_type: 0,
    };
    let j = v.to_json();
    assert_eq!(GenshinHoyo::from_json(&j).unwrap(), v);
}

#[test]
fn weapon_round_trip() {
    let v = EquipWeapon {
        item_id: 11509,
        weapon: Weapon {
            level: 90,
            promote_level: Some(6),
            affix_map: Some(JsonMap { entries: vec![(111509, 4)] }),
        },
        flat: FlatWeapon {
            name_text_map_hash: TextMapHash::U64(1),
            rank_level: 5,
            item_type: "ITEM_WEAPON".to_string(),
            icon: "UI".to_string(),
            weapon_stats: vec![SubStat {
                append_prop_id: "FIGHT_PROP_CRITICAL".to_string(),
                stat_value: JsonNumber::Float("24.1".to_string()),
            }],
        },
    };
    let j = v.to_json();
    assert_eq!(EquipWeapon::from_json(&j).unwrap(), v);
}

#[test]
fn enum_round_trips() {
    for r in [Region::Internal, Region::Celestia, Region::Irminsul, Region::America, Region::Europe, Region::Asia] {
        assert_eq!(Region::from_json(&r.to_json()).unwrap(), r);
    }
    for e in [EquipType::EquipBracer, EquipType::EquipNeackle, EquipType::EquipShoes, EquipType::EquipRing, EquipType::EquipDress] {
        assert_eq!(EquipType::from_json(&e.to_json()).unwrap(), e);
    }
    assert_eq!(EquipType::EquipNeackle.to_json(), Json::Text("EQUIP_NEACKLE".to_string()));
    assert_eq!(ProfilePicture::from_json(&ProfilePicture::Id(9).to_json()).unwrap(), ProfilePicture::Id(9));
}

#[test]
fn union_round_trips() {
    let w = EquipWeapon {
        item_id: 1,
        weapon: Weapon { level: 1, promote_level: None, affix_map: None },
        flat: FlatWeapon {
            name_text_map_hash: TextMapHash::String("7".to_string()),
            rank_level: 3,
            item_type: "ITEM_WEAPON".to_string(),
            icon: "i".to_string(),
            weapon_stats: vec![],
        },
    };
    let e = Equip::Weapon(w);
    assert_eq!(Equip::from_json(&e.to_json()).unwrap(), e);
    let raw = Json::Object(vec![
        ("hoyo_type".to_string(), Json::Number(JsonNumber::PosInt(2))),
        ("x".to_string(), Json::Array(vec![Json::Bool(true)])),
    ]);
    let h = Hoyo::Other(raw);
    assert_eq!(Hoyo::from_json(&h.to_json()).unwrap(), h);
}
