use enka_rs::decode::{DecodeError, FromJson, JsonMap};
use enka_rs::gi::api::profile::hoyo::builds::Build;
use enka_rs::gi::api::profile::hoyo::{Hoyo, Region};
use enka_rs::gi::api::profile::info::{Info, Profile};
use enka_rs::gi::api::{Equip, Prop, ProfilePicture, TextMapHash};
use enka_rs::gi::{FetchError, decode_body};
use enka_rs::json::{Json, JsonNumber};

const PLAYER_INFO: &str = r#"{"nickname":"Lumine","level":58,"nameCardId":210001,"finishAchievementNum":12,"profilePicture":{"avatarId":10000007}}"#;

fn genshin(kind: u64) -> String {
    format!(
        r#"{{"uid":700000001,"uid_public":true,"public":true,"live_public":false,"verified":true,"player_info":{},"hash":"abc","region":"EU","order":2,"avatar_order":{{"10000007":1}},"hoyo_type":{}}}"#,
        PLAYER_INFO, kind
    )
}

const WEAPON: &str = r#"{"itemId":11509,"weapon":{"level":90},"flat":{"nameTextMapHash":"123","rankLevel":5,"itemType":"ITEM_WEAPON","icon":"UI_Equip","weaponStats":[]}}"#;

const RELIQUARY: &str = r#"{"itemId":1,"reliquary":{"level":21,"mainPropId":10001,"appendPropIdList":[501021]},"flat":{"nameTextMapHash":456,"setNameTextMapHash":"789","rankLevel":5,"reliquaryMainstat":{"mainPropId":"FIGHT_PROP_HP","statValue":4780},"reliquarySubstats":[{"appendPropId":"FIGHT_PROP_CRITICAL","statValue":3.9}],"itemType":"ITEM_RELIQUARY","icon":"UI_Relic","equipType":"EQUIP_BRACER"}}"#;

#[test]
fn hoyo_kind_zero_is_genshin() {
    match decode_body::<Hoyo>(&genshin(0)).unwrap() {
        Hoyo::Genshin(g) => {
            assert_eq!(g.uid, Some(700000001));
            assert_eq!(g.region, Region::Europe);
            assert_eq!(g.hash, "abc");
            assert_eq!(g.avatar_order.unwrap().entries, vec![(10000007u64, 1u64)]);
            assert_eq!(g.player_info.profile_picture, ProfilePicture::AvatarId(10000007));
        }
        other => panic!("unexpected {:?}", other),
    }
}

#[test]
fn hoyo_kind_one_and_two_are_kept_raw() {
    let body = r#"{"hoyo_type":1,"anything":[1,-2,"x",null,{"n":true}]}"#;
    match decode_body::<Hoyo>(body).unwrap() {
        Hoyo::Other(j) => {
            let expected = Json::Object(vec![
                (
                    "anything".to_string(),
                    Json::Array(vec![
                        Json::Number(JsonNumber::PosInt(1)),
                        Json::Number(JsonNumber::NegInt(-2)),
                        Json::Text("x".to_string()),
                        Json::Null,
                        Json::Object(vec![("n".to_string(), Json::Bool(true))]),
                    ]),
                ),
                ("hoyo_type".to_string(), Json::Number(JsonNumber::PosInt(1))),
            ]);
            assert_eq!(j, expected);
        }
        other => panic!("unexpected {:?}", other),
    }
    assert!(matches!(decode_body::<Hoyo>(r#"{"hoyo_type":2}"#), Ok(Hoyo::Other(_))));
}

#[test]
fn hoyo_unknown_kind_fails() {
    assert!(matches!(
        decode_body::<Hoyo>(r#"{"hoyo_type":7}"#),
        Err(FetchError::Deserialization(DecodeError::UnknownVariant))
    ));
    assert!(matches!(
        decode_body::<Hoyo>(r#"{"name":"no kind"}"#),
        Err(FetchError::Deserialization(DecodeError::UnknownVariant))
    ));
}

#[test]
fn hoyo_kind_zero_must_match_shape() {
    let body = genshin(0).replacen("\"order\":2,", "\"order\":2,\"extra\":1,", 1);
    assert!(matches!(
        decode_body::<Hoyo>(&body),
        Err(FetchError::Deserialization(DecodeError::UnknownField(_)))
    ));
}

#[test]
fn hoyo_map() {
    let body = format!(r#"{{"abc":{},"def":{{"hoyo_type":2}}}}"#, genshin(0));
    let map = decode_body::<JsonMap<String, Hoyo>>(&body).unwrap();
    assert_eq!(map.entries.len(), 2);
    assert_eq!(map.entries[0].0, "abc");
    assert!(matches!(map.entries[0].1, Hoyo::Genshin(_)));
    assert!(matches!(map.entries[1].1, Hoyo::Other(_)));
}

#[test]
fn equip_weapon() {
    match decode_body::<Equip>(WEAPON).unwrap() {
        Equip::Weapon(w) => {
            assert_eq!(w.flat.name_text_map_hash, TextMapHash::String("123".to_string()));
            assert_eq!(w.flat.item_type, "ITEM_WEAPON");
            assert!(w.weapon.promote_level.is_none());
        }
        other => panic!("unexpected {:?}", other),
    }
}

#[test]
fn equip_reliquary() {
    match decode_body::<Equip>(RELIQUARY).unwrap() {
        Equip::Reliquary(r) => {
            assert_eq!(r.reliquary.main_prop_id, 10001);
            assert_eq!(r.flat.name_text_map_hash, TextMapHash::U64(456));
            assert_eq!(r.flat.reliquary_mainstat.stat_value, JsonNumber::PosInt(4780));
            let subs = r.flat.reliquary_substats.unwrap();
            assert_eq!(subs[0].stat_value, JsonNumber::Float("3.9".to_string()));
        }
        other => panic!("unexpected {:?}", other),
    }
}

#[test]
fn equip_other_item_type_fails() {
    let body = WEAPON.replace("ITEM_WEAPON", "ITEM_MATERIAL");
    assert!(matches!(
        decode_body::<Equip>(&body),
        Err(FetchError::Deserialization(DecodeError::UnknownVariant))
    ));
    assert!(matches!(
        decode_body::<Equip>(r#"{"itemId":1}"#),
        Err(FetchError::Deserialization(DecodeError::UnknownVariant))
    ));
}

#[test]
fn profile_decodes_exactly() {
    let body = r#"{"username":"alice","profile":{"bio":"hello","level":-3,"avatar":null,"image_url":"https://x"},"id":42}"#;
    let info = decode_body::<Info>(body).unwrap();
    let expected = Info {
        username: "alice".to_string(),
        profile: Profile {
            bio: "hello".to_string(),
            level: -3,
            signup_state: None,
            avatar: None,
            image_url: Some("https://x".to_string()),
        },
        id: 42,
    };
    assert_eq!(info, expected);
}

#[test]
fn profile_extra_member_fails() {
    let body = r#"{"username":"alice","profile":{"bio":"","level":1},"id":42,"zzz":0}"#;
    match decode_body::<Info>(body) {
        Err(FetchError::Deserialization(DecodeError::UnknownField(f))) => assert_eq!(f, "zzz"),
        other => panic!("unexpected {:?}", other),
    }
}

#[test]
fn out_of_range_integer_fails() {
    let body = r#"{"username":"a","profile":{"bio":"","level":1,"signup_state":256},"id":1}"#;
    assert!(matches!(decode_body::<Info>(body), Err(FetchError::Deserialization(DecodeError::Invalid))));
}

#[test]
fn build_record() {
    let avatar = r#"{"avatarId":10000007,"propMap":{},"fightPropMap":{},"skillDepotId":704,"inherentProudSkillList":[],"skillLevelMap":{},"equipList":[]}"#;
    let body = format!(
        r#"{{"id":77,"name":"main","avatar_id":"10000007","avatar_data":{},"order":0,"live":false,"settings":{{"caption":"c","honkardWidth":1.5,"transform":{{"x":1}}}},"public":true,"image":null,"hoyo_type":0,"hoyo":"abc"}}"#,
        avatar
    );
    let b = decode_body::<Build>(&body).unwrap();
    assert_eq!(b.id, 77);
    assert_eq!(b.settings.caption, Some("c".to_string()));
    assert_eq!(b.settings.honkard_width, Some(JsonNumber::Float("1.5".to_string())));
    assert_eq!(
        b.settings.transform,
        Some(Json::Object(vec![("x".to_string(), Json::Number(JsonNumber::PosInt(1)))]))
    );
    let map = decode_body::<JsonMap<u64, Vec<Build>>>(&format!(r#"{{"10000007":[{}]}}"#, body)).unwrap();
    assert_eq!(map.entries[0].0, 10000007);
    assert_eq!(map.entries[0].1.len(), 1);
}

#[test]
fn props_by_code() {
    assert_eq!(Prop::from_code(4001), Some(Prop::Level));
    assert_eq!(Prop::from_code(1001), Some(Prop::Xp));
    assert_eq!(Prop::from_code(5), None);
    assert_eq!(Prop::Unknown4.code(), 10049);
    let m = decode_body::<JsonMap<Prop, u64>>(r#"{"1002":1,"10010":2}"#).unwrap();
    // members come in the order of their names
    assert_eq!(m.entries, vec![(Prop::Unknown3, 2), (Prop::Ascension, 1)]);
    assert!(matches!(
        decode_body::<JsonMap<Prop, u64>>(r#"{"7":1}"#),
        Err(FetchError::Deserialization(DecodeError::UnknownVariant))
    ));
    assert!(matches!(
        decode_body::<JsonMap<u64, u64>>(r#"{"x1":1}"#),
        Err(FetchError::Deserialization(DecodeError::Invalid))
    ));
}

#[test]
fn regions() {
    assert_eq!(decode_body::<Region>("\"\"").unwrap(), Region::Internal);
    assert_eq!(decode_body::<Region>("\"ASIA\"").unwrap(), Region::Asia);
    assert_eq!(decode_body::<Region>("\"TW\"").unwrap(), Region::TaiwanHonKongMacao);
    assert!(decode_body::<Region>("\"Asia\"").is_err());
}

#[test]
fn numeric_keys_are_canonical() {
    for key in ["007", "+5", "-1", "", "1.0", "18446744073709551616"] {
        let body = format!(r#"{{"{}":1}}"#, key);
        assert!(
            matches!(decode_body::<JsonMap<u64, u64>>(&body), Err(FetchError::Deserialization(DecodeError::Invalid))),
            "key {:?}",
            key
        );
    }
    let m = decode_body::<JsonMap<u64, u64>>(r#"{"0":1,"18446744073709551615":2}"#).unwrap();
    assert_eq!(m.entries, vec![(0, 1), (u64::MAX, 2)]);
}

#[test]
fn repeated_member_names_rejected() {

    let j = Json::Object(vec![
        ("a".to_string(), Json::Number(JsonNumber::PosInt(1))),
        ("a".to_string(), Json::Number(JsonNumber::PosInt(2))),
    ]);
    assert_eq!(JsonMap::<String, u64>::from_json(&j), Err(DecodeError::DuplicateKey));
}
