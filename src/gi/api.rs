//! Records of the service's JSON payloads, shared by several endpoints.
use vstd::prelude::*;
use crate::decode::{
    DecodeError, FromJson, FromKey, JsonMap, ToJson, ToKey, decimal, decimal_fits, decimal_text,
    decimal_value, decode_member, lemma_canonical_unique, lemma_decimal_value, lemma_object_members,
    only_declared, strict_members, unsigned_of,
};
use crate::json::{Json, JsonNumber, field, field_ref};

pub mod player;
pub mod profile;

verus! {

pub type AvatarId = u64;

pub type CostumeId = u64;

pub type ItemId = u64;

pub type NameCardId = u64;

pub type ProfilePictureId = u64;

pub type SkillId = u64;

pub type TalentId = u64;

/// A character shown on a player's showcase.
#[derive(Debug, PartialEq, Eq)]
pub struct ShowAvatarInfo {
    pub avatar_id: u64,
    pub level: u8,
    pub energy_type: Option<u8>,
    pub costume_id: Option<u64>,
    pub talent_level: Option<u8>,
}

impl FromJson for ShowAvatarInfo {
    open spec fn accepts(j: Json) -> bool {
        &&& only_declared(j, seq!["avatarId", "level", "energyType", "costumeId", "talentLevel"])
        &&& <u64 as FromJson>::accepts(field(j, "avatarId"@))
        &&& <u8 as FromJson>::accepts(field(j, "level"@))
        &&& <Option<u8> as FromJson>::accepts(field(j, "energyType"@))
        &&& <Option<u64> as FromJson>::accepts(field(j, "costumeId"@))
        &&& <Option<u8> as FromJson>::accepts(field(j, "talentLevel"@))
    }

    open spec fn reads(j: Json, v: ShowAvatarInfo) -> bool {
        &&& <u64 as FromJson>::reads(field(j, "avatarId"@), v.avatar_id)
        &&& <u8 as FromJson>::reads(field(j, "level"@), v.level)
        &&& <Option<u8> as FromJson>::reads(field(j, "energyType"@), v.energy_type)
        &&& <Option<u64> as FromJson>::reads(field(j, "costumeId"@), v.costume_id)
        &&& <Option<u8> as FromJson>::reads(field(j, "talentLevel"@), v.talent_level)
    }

    open spec fn unknown_variant(j: Json) -> bool {
        false
    }

    open spec fn strict_names() -> Option<Seq<&'static str>> {
        Some(seq!["avatarId", "level", "energyType", "costumeId", "talentLevel"])
    }

    proof fn lemma_strict_names(j: Json) {
    }

    fn from_json(j: &Json) -> (r: Result<ShowAvatarInfo, DecodeError>) {
        let names = ["avatarId", "level", "energyType", "costumeId", "talentLevel"];
        assert(names@ =~= seq!["avatarId", "level", "energyType", "costumeId", "talentLevel"]);
        let members = strict_members(j, &names)?;
        let avatar_id = decode_member::<u64>(members, "avatarId")?;
        let level = decode_member::<u8>(members, "level")?;
        let energy_type = decode_member::<Option<u8>>(members, "energyType")?;
        let costume_id = decode_member::<Option<u64>>(members, "costumeId")?;
        let talent_level = decode_member::<Option<u8>>(members, "talentLevel")?;
        Ok(ShowAvatarInfo { avatar_id, level, energy_type, costume_id, talent_level })
    }
}

impl ToJson for ShowAvatarInfo {
    open spec fn encodes_null(&self) -> bool {
        false
    }

    open spec fn encodable(&self) -> bool {
        &&& self.avatar_id.encodable()
        &&& self.level.encodable()
        &&& self.energy_type.encodable()
        &&& self.costume_id.encodable()
        &&& self.talent_level.encodable()
    }

    fn to_json(&self) -> (r: Json) {
        let mut members: Vec<(String, Json)> = Vec::new();
        members.push((String::from_str("avatarId"), self.avatar_id.to_json()));
        members.push((String::from_str("level"), self.level.to_json()));
        members.push((String::from_str("energyType"), self.energy_type.to_json()));
        members.push((String::from_str("costumeId"), self.costume_id.to_json()));
        members.push((String::from_str("talentLevel"), self.talent_level.to_json()));
        proof {
            reveal_strlit("avatarId");
            assert("avatarId"@.len() == 8);
            reveal_strlit("level");
            assert("level"@.len() == 5);
            reveal_strlit("energyType");
            assert("energyType"@.len() == 10);
            reveal_strlit("costumeId");
            assert("costumeId"@.len() == 9);
            reveal_strlit("talentLevel");
            assert("talentLevel"@.len() == 11);
            let names = seq!["avatarId", "level", "energyType", "costumeId", "talentLevel"];
            lemma_object_members(members@, names);
            assert(names[0] == "avatarId");
            assert(names[1] == "level");
            assert(names[2] == "energyType");
            assert(names[3] == "costumeId");
            assert(names[4] == "talentLevel");
        }
        Json::Object(members)
    }
}

/// A character's friendship level.
#[derive(Debug, PartialEq, Eq)]
pub struct AvatarInfoFetterInfo {
    pub exp_level: u8,
}

impl FromJson for AvatarInfoFetterInfo {
    open spec fn accepts(j: Json) -> bool {
        &&& only_declared(j, seq!["expLevel"])
        &&& <u8 as FromJson>::accepts(field(j, "expLevel"@))
    }

    open spec fn reads(j: Json, v: AvatarInfoFetterInfo) -> bool {
        &&& <u8 as FromJson>::reads(field(j, "expLevel"@), v.exp_level)
    }

    open spec fn unknown_variant(j: Json) -> bool {
        false
    }

    open spec fn strict_names() -> Option<Seq<&'static str>> {
        Some(seq!["expLevel"])
    }

    proof fn lemma_strict_names(j: Json) {
    }

    fn from_json(j: &Json) -> (r: Result<AvatarInfoFetterInfo, DecodeError>) {
        let names = ["expLevel"];
        assert(names@ =~= seq!["expLevel"]);
        let members = strict_members(j, &names)?;
        let exp_level = decode_member::<u8>(members, "expLevel")?;
        Ok(AvatarInfoFetterInfo { exp_level })
    }
}

/// A player's avatar picture: a character, or a picture by its own id.
/// On the wire it is an object with exactly one member, `avatarId` or `id`.
#[derive(Debug, PartialEq, Eq, Clone, Copy)]
pub enum ProfilePicture {
    AvatarId(AvatarId),
    Id(ProfilePictureId),
}

impl FromJson for ProfilePicture {
    open spec fn accepts(j: Json) -> bool {
        j matches Json::Object(m) && m@.len() == 1 && (m@[0].0@ == "avatarId"@ || m@[0].0@
            == "id"@) && unsigned_of(m@[0].1) is Some
    }

    open spec fn reads(j: Json, v: ProfilePicture) -> bool {
        j matches Json::Object(m) && m@.len() == 1 && if m@[0].0@ == "avatarId"@ {
            v == ProfilePicture::AvatarId(unsigned_of(m@[0].1)->0)
        } else {
            v == ProfilePicture::Id(unsigned_of(m@[0].1)->0)
        }
    }

    open spec fn unknown_variant(j: Json) -> bool {
        false
    }

    open spec fn strict_names() -> Option<Seq<&'static str>> {
        None
    }

    proof fn lemma_strict_names(j: Json) {
    }

    fn from_json(j: &Json) -> (r: Result<ProfilePicture, DecodeError>) {
        match j {
            Json::Object(m) if m.len() == 1 => {
                let n = match &m[0].1 {
                    Json::Number(JsonNumber::PosInt(n)) => *n,
                    _ => {
                        return Err(DecodeError::Invalid);
                    },
                };
                if m[0].0 == String::from_str("avatarId") {
                    Ok(ProfilePicture::AvatarId(n))
                } else if m[0].0 == String::from_str("id") {
                    Ok(ProfilePicture::Id(n))
                } else {
                    Err(DecodeError::UnknownVariant)
                }
            },
            _ => Err(DecodeError::Invalid),
        }
    }
}

/// A key into the game's text tables: a string, or a number in older records.
#[derive(Debug, PartialEq, Eq, Hash)]
pub enum TextMapHash {
    String(String),
    U64(u64),
}

impl FromJson for TextMapHash {
    open spec fn accepts(j: Json) -> bool {
        j is Text || unsigned_of(j) is Some
    }

    open spec fn reads(j: Json, v: TextMapHash) -> bool {
        match j {
            Json::Text(s) => v matches TextMapHash::String(t) && t@ == s@,
            _ => v == TextMapHash::U64(unsigned_of(j)->0),
        }
    }

    open spec fn unknown_variant(j: Json) -> bool {
        false
    }

    open spec fn strict_names() -> Option<Seq<&'static str>> {
        None
    }

    proof fn lemma_strict_names(j: Json) {
    }

    fn from_json(j: &Json) -> (r: Result<TextMapHash, DecodeError>) {
        match j {
            Json::Text(s) => Ok(TextMapHash::String(s.clone())),
            Json::Number(JsonNumber::PosInt(n)) => Ok(TextMapHash::U64(*n)),
            _ => Err(DecodeError::Invalid),
        }
    }
}

/// A character property, written on the wire as its numeric code.
#[non_exhaustive]
#[derive(Debug, Clone, Copy, PartialEq, Eq, Structural, Hash)]
pub enum Prop {
    Xp,
    Ascension,
    Unknown,
    Unknown2,
    Level,
    Unknown3,
    Unknown4,
}

/// The property with numeric code `n`.
pub open spec fn prop_of_code(n: int) -> Option<Prop> {
    if n == 1001 {
        Some(Prop::Xp)
    } else if n == 1002 {
        Some(Prop::Ascension)
    } else if n == 1003 {
        Some(Prop::Unknown)
    } else if n == 1004 {
        Some(Prop::Unknown2)
    } else if n == 4001 {
        Some(Prop::Level)
    } else if n == 10010 {
        Some(Prop::Unknown3)
    } else if n == 10049 {
        Some(Prop::Unknown4)
    } else {
        None
    }
}

/// The numeric code of property `p`.
pub open spec fn prop_code(p: Prop) -> nat {
    match p {
        Prop::Xp => 1001,
        Prop::Ascension => 1002,
        Prop::Unknown => 1003,
        Prop::Unknown2 => 1004,
        Prop::Level => 4001,
        Prop::Unknown3 => 10010,
        Prop::Unknown4 => 10049,
    }
}

impl Prop {
    /// The property with numeric code `n`, if there is one.
    pub fn from_code(n: u64) -> (r: Option<Prop>)
        ensures
            r == prop_of_code(n as int),
    {
        if n == 1001 {
            Some(Prop::Xp)
        } else if n == 1002 {
            Some(Prop::Ascension)
        } else if n == 1003 {
            Some(Prop::Unknown)
        } else if n == 1004 {
            Some(Prop::Unknown2)
        } else if n == 4001 {
            Some(Prop::Level)
        } else if n == 10010 {
            Some(Prop::Unknown3)
        } else if n == 10049 {
            Some(Prop::Unknown4)
        } else {
            None
        }
    }

    /// The numeric code of the property.
    pub fn code(&self) -> (r: u32)
        ensures
            prop_of_code(r as int) == Some(*self),
            r as nat == prop_code(*self),
    {
        match self {
            Prop::Xp => 1001,
            Prop::Ascension => 1002,
            Prop::Unknown => 1003,
            Prop::Unknown2 => 1004,
            Prop::Level => 4001,
            Prop::Unknown3 => 10010,
            Prop::Unknown4 => 10049,
        }
    }
}

impl FromJson for Prop {
    open spec fn accepts(j: Json) -> bool {
        unsigned_of(j) matches Some(n) && prop_of_code(n as int) is Some
    }

    open spec fn reads(j: Json, v: Prop) -> bool {
        unsigned_of(j) matches Some(n) && prop_of_code(n as int) == Some(v)
    }

    open spec fn unknown_variant(j: Json) -> bool {
        false
    }

    open spec fn strict_names() -> Option<Seq<&'static str>> {
        None
    }

    proof fn lemma_strict_names(j: Json) {
    }

    fn from_json(j: &Json) -> (r: Result<Prop, DecodeError>) {
        match j {
            Json::Number(JsonNumber::PosInt(n)) => match Prop::from_code(*n) {
                Some(p) => Ok(p),
                None => Err(DecodeError::UnknownVariant),
            },
            _ => Err(DecodeError::Invalid),
        }
    }
}

/// A property used as a member name: its code in decimal.
impl FromKey for Prop {
    open spec fn key_accepts(k: Seq<char>) -> bool {
        decimal_fits(k, u32::MAX as nat) && prop_of_code(decimal_value(k)->0 as int) is Some
    }

    open spec fn key_reads(k: Seq<char>, v: Prop) -> bool {
        decimal_value(k) matches Some(n) && prop_of_code(n as int) == Some(v)
    }

    open spec fn key_name(v: Prop) -> Seq<char> {
        decimal(prop_code(v))
    }

    proof fn lemma_key_name(k: Seq<char>, v: Prop) {
        lemma_canonical_unique(k);
    }

    fn from_key(k: &String) -> (r: Result<Prop, DecodeError>) {
        let n = u32::from_key(k)?;
        match Prop::from_code(n as u64) {
            Some(p) => Ok(p),
            None => Err(DecodeError::UnknownVariant),
        }
    }
}

/// The slot an artifact goes in.
#[derive(Debug, Clone, Copy, PartialEq, Eq, Structural)]
pub enum EquipType {
    EquipBracer,
    EquipNeackle,
    EquipShoes,
    EquipRing,
    EquipDress,
}

/// The slot named `s`.
pub open spec fn equip_type_named(s: Seq<char>) -> Option<EquipType> {
    if s == "EQUIP_BRACER"@ {
        Some(EquipType::EquipBracer)
    } else if s == "EQUIP_NEACKLE"@ {
        Some(EquipType::EquipNeackle)
    } else if s == "EQUIP_SHOES"@ {
        Some(EquipType::EquipShoes)
    } else if s == "EQUIP_RING"@ {
        Some(EquipType::EquipRing)
    } else if s == "EQUIP_DRESS"@ {
        Some(EquipType::EquipDress)
    } else {
        None
    }
}

impl FromJson for EquipType {
    open spec fn accepts(j: Json) -> bool {
        j matches Json::Text(s) && equip_type_named(s@) is Some
    }

    open spec fn reads(j: Json, v: EquipType) -> bool {
        j matches Json::Text(s) && equip_type_named(s@) == Some(v)
    }

    open spec fn unknown_variant(j: Json) -> bool {
        false
    }

    open spec fn strict_names() -> Option<Seq<&'static str>> {
        None
    }

    proof fn lemma_strict_names(j: Json) {
    }

    fn from_json(j: &Json) -> (r: Result<EquipType, DecodeError>) {
        match j {
            Json::Text(s) => {
                if *s == String::from_str("EQUIP_BRACER") {
                    Ok(EquipType::EquipBracer)
                } else if *s == String::from_str("EQUIP_NEACKLE") {
                    Ok(EquipType::EquipNeackle)
                } else if *s == String::from_str("EQUIP_SHOES") {
                    Ok(EquipType::EquipShoes)
                } else if *s == String::from_str("EQUIP_RING") {
                    Ok(EquipType::EquipRing)
                } else if *s == String::from_str("EQUIP_DRESS") {
                    Ok(EquipType::EquipDress)
                } else {
                    Err(DecodeError::UnknownVariant)
                }
            },
            _ => Err(DecodeError::Invalid),
        }
    }
}

impl ToJson for ProfilePicture {
    open spec fn encodes_null(&self) -> bool {
        false
    }

    open spec fn encodable(&self) -> bool {
        true
    }

    fn to_json(&self) -> (r: Json) {
        proof {
            reveal_strlit("avatarId");
            reveal_strlit("id");
            assert("avatarId"@.len() != "id"@.len());
        }
        let (name, n) = match self {
            ProfilePicture::AvatarId(n) => (String::from_str("avatarId"), *n),
            ProfilePicture::Id(n) => (String::from_str("id"), *n),
        };
        Json::Object(vec![(name, Json::Number(JsonNumber::PosInt(n)))])
    }
}

impl ToJson for TextMapHash {
    open spec fn encodes_null(&self) -> bool {
        false
    }

    open spec fn encodable(&self) -> bool {
        true
    }

    fn to_json(&self) -> (r: Json) {
        match self {
            TextMapHash::String(s) => Json::Text(s.clone()),
            TextMapHash::U64(n) => Json::Number(JsonNumber::PosInt(*n)),
        }
    }
}

impl ToKey for Prop {
    fn to_key(&self) -> (r: String) {
        let code = self.code();
        proof {
            lemma_decimal_value(code as nat);
        }
        decimal_text(code as u64)
    }
}

impl ToJson for Prop {
    open spec fn encodes_null(&self) -> bool {
        false
    }

    open spec fn encodable(&self) -> bool {
        true
    }

    fn to_json(&self) -> (r: Json) {
        Json::Number(JsonNumber::PosInt(self.code() as u64))
    }
}

impl ToJson for EquipType {
    open spec fn encodes_null(&self) -> bool {
        false
    }

    open spec fn encodable(&self) -> bool {
        true
    }

    fn to_json(&self) -> (r: Json) {
        proof {
            reveal_strlit("EQUIP_BRACER");
            reveal_strlit("EQUIP_NEACKLE");
            reveal_strlit("EQUIP_SHOES");
            reveal_strlit("EQUIP_RING");
            reveal_strlit("EQUIP_DRESS");
            assert("EQUIP_BRACER"@.len() != "EQUIP_NEACKLE"@.len());
            assert("EQUIP_BRACER"@.len() != "EQUIP_SHOES"@.len());
            assert("EQUIP_NEACKLE"@.len() != "EQUIP_SHOES"@.len());
            assert("EQUIP_BRACER"@.len() != "EQUIP_RING"@.len());
            assert("EQUIP_NEACKLE"@.len() != "EQUIP_RING"@.len());
            assert("EQUIP_SHOES"@.len() != "EQUIP_RING"@.len());
            assert("EQUIP_BRACER"@.len() != "EQUIP_DRESS"@.len());
            assert("EQUIP_NEACKLE"@.len() != "EQUIP_DRESS"@.len());
            assert("EQUIP_SHOES"@[6] != "EQUIP_DRESS"@[6]);
            assert("EQUIP_RING"@.len() != "EQUIP_DRESS"@.len());
        }
        let s = match self {
            EquipType::EquipBracer => String::from_str("EQUIP_BRACER"),
            EquipType::EquipNeackle => String::from_str("EQUIP_NEACKLE"),
            EquipType::EquipShoes => String::from_str("EQUIP_SHOES"),
            EquipType::EquipRing => String::from_str("EQUIP_RING"),
            EquipType::EquipDress => String::from_str("EQUIP_DRESS"),
        };
        Json::Text(s)
    }
}

impl ToJson for AvatarInfoFetterInfo {
    open spec fn encodes_null(&self) -> bool {
        false
    }

    open spec fn encodable(&self) -> bool {
        &&& self.exp_level.encodable()
    }

    fn to_json(&self) -> (r: Json) {
        let mut members: Vec<(String, Json)> = Vec::new();
        members.push((String::from_str("expLevel"), self.exp_level.to_json()));
        proof {
            reveal_strlit("expLevel");
            assert("expLevel"@.len() == 8);
            let names = seq!["expLevel"];
            lemma_object_members(members@, names);
            assert(names[0] == "expLevel");
        }
        Json::Object(members)
    }
}

/// A player's public summary.
#[derive(Debug, PartialEq, Eq)]
pub struct PlayerInfo {
    pub nickname: String,
    pub level: u8,
    pub signature: Option<String>,
    pub world_level: Option<u8>,
    pub name_card_id: u64,
    pub finish_achievement_num: u64,
    pub tower_floor_index: Option<u8>,
    pub tower_level_index: Option<u8>,
    pub tower_star_index: Option<u8>,
    pub theater_mode_index: Option<u8>,
    pub theater_act_index: Option<u8>,
    pub theater_star_index: Option<u8>,
    pub is_show_avatar_talent: Option<bool>,
    pub show_avatar_info_list: Option<Vec<ShowAvatarInfo>>,
    pub show_name_card_id_list: Option<Vec<u64>>,
    pub profile_picture: ProfilePicture,
    pub fetter_count: Option<u8>,
}

impl FromJson for PlayerInfo {
    open spec fn accepts(j: Json) -> bool {
        &&& only_declared(j, seq!["nickname", "level", "signature", "worldLevel", "nameCardId", "finishAchievementNum", "towerFloorIndex", "towerLevelIndex", "towerStarIndex", "theaterModeIndex", "theaterActIndex", "theaterStarIndex", "isShowAvatarTalent", "showAvatarInfoList", "showNameCardIdList", "profilePicture", "fetterCount"])
        &&& <String as FromJson>::accepts(field(j, "nickname"@))
        &&& <u8 as FromJson>::accepts(field(j, "level"@))
        &&& <Option<String> as FromJson>::accepts(field(j, "signature"@))
        &&& <Option<u8> as FromJson>::accepts(field(j, "worldLevel"@))
        &&& <u64 as FromJson>::accepts(field(j, "nameCardId"@))
        &&& <u64 as FromJson>::accepts(field(j, "finishAchievementNum"@))
        &&& <Option<u8> as FromJson>::accepts(field(j, "towerFloorIndex"@))
        &&& <Option<u8> as FromJson>::accepts(field(j, "towerLevelIndex"@))
        &&& <Option<u8> as FromJson>::accepts(field(j, "towerStarIndex"@))
        &&& <Option<u8> as FromJson>::accepts(field(j, "theaterModeIndex"@))
        &&& <Option<u8> as FromJson>::accepts(field(j, "theaterActIndex"@))
        &&& <Option<u8> as FromJson>::accepts(field(j, "theaterStarIndex"@))
        &&& <Option<bool> as FromJson>::accepts(field(j, "isShowAvatarTalent"@))
        &&& <Option<Vec<ShowAvatarInfo>> as FromJson>::accepts(field(j, "showAvatarInfoList"@))
        &&& <Option<Vec<u64>> as FromJson>::accepts(field(j, "showNameCardIdList"@))
        &&& <ProfilePicture as FromJson>::accepts(field(j, "profilePicture"@))
        &&& <Option<u8> as FromJson>::accepts(field(j, "fetterCount"@))
    }

    open spec fn reads(j: Json, v: PlayerInfo) -> bool {
        &&& <String as FromJson>::reads(field(j, "nickname"@), v.nickname)
        &&& <u8 as FromJson>::reads(field(j, "level"@), v.level)
        &&& <Option<String> as FromJson>::reads(field(j, "signature"@), v.signature)
        &&& <Option<u8> as FromJson>::reads(field(j, "worldLevel"@), v.world_level)
        &&& <u64 as FromJson>::reads(field(j, "nameCardId"@), v.name_card_id)
        &&& <u64 as FromJson>::reads(field(j, "finishAchievementNum"@), v.finish_achievement_num)
        &&& <Option<u8> as FromJson>::reads(field(j, "towerFloorIndex"@), v.tower_floor_index)
        &&& <Option<u8> as FromJson>::reads(field(j, "towerLevelIndex"@), v.tower_level_index)
        &&& <Option<u8> as FromJson>::reads(field(j, "towerStarIndex"@), v.tower_star_index)
        &&& <Option<u8> as FromJson>::reads(field(j, "theaterModeIndex"@), v.theater_mode_index)
        &&& <Option<u8> as FromJson>::reads(field(j, "theaterActIndex"@), v.theater_act_index)
        &&& <Option<u8> as FromJson>::reads(field(j, "theaterStarIndex"@), v.theater_star_index)
        &&& <Option<bool> as FromJson>::reads(field(j, "isShowAvatarTalent"@), v.is_show_avatar_talent)
        &&& <Option<Vec<ShowAvatarInfo>> as FromJson>::reads(field(j, "showAvatarInfoList"@), v.show_avatar_info_list)
        &&& <Option<Vec<u64>> as FromJson>::reads(field(j, "showNameCardIdList"@), v.show_name_card_id_list)
        &&& <ProfilePicture as FromJson>::reads(field(j, "profilePicture"@), v.profile_picture)
        &&& <Option<u8> as FromJson>::reads(field(j, "fetterCount"@), v.fetter_count)
    }

    open spec fn unknown_variant(j: Json) -> bool {
        false
    }

    open spec fn strict_names() -> Option<Seq<&'static str>> {
        Some(seq!["nickname", "level", "signature", "worldLevel", "nameCardId", "finishAchievementNum", "towerFloorIndex", "towerLevelIndex", "towerStarIndex", "theaterModeIndex", "theaterActIndex", "theaterStarIndex", "isShowAvatarTalent", "showAvatarInfoList", "showNameCardIdList", "profilePicture", "fetterCount"])
    }

    proof fn lemma_strict_names(j: Json) {
    }

    fn from_json(j: &Json) -> (r: Result<PlayerInfo, DecodeError>) {
        let names = ["nickname", "level", "signature", "worldLevel", "nameCardId", "finishAchievementNum", "towerFloorIndex", "towerLevelIndex", "towerStarIndex", "theaterModeIndex", "theaterActIndex", "theaterStarIndex", "isShowAvatarTalent", "showAvatarInfoList", "showNameCardIdList", "profilePicture", "fetterCount"];
        assert(names@ =~= seq!["nickname", "level", "signature", "worldLevel", "nameCardId", "finishAchievementNum", "towerFloorIndex", "towerLevelIndex", "towerStarIndex", "theaterModeIndex", "theaterActIndex", "theaterStarIndex", "isShowAvatarTalent", "showAvatarInfoList", "showNameCardIdList", "profilePicture", "fetterCount"]);
        let members = strict_members(j, &names)?;
        let nickname = decode_member::<String>(members, "nickname")?;
        let level = decode_member::<u8>(members, "level")?;
        let signature = decode_member::<Option<String>>(members, "signature")?;
        let world_level = decode_member::<Option<u8>>(members, "worldLevel")?;
        let name_card_id = decode_member::<u64>(members, "nameCardId")?;
        let finish_achievement_num = decode_member::<u64>(members, "finishAchievementNum")?;
        let tower_floor_index = decode_member::<Option<u8>>(members, "towerFloorIndex")?;
        let tower_level_index = decode_member::<Option<u8>>(members, "towerLevelIndex")?;
        let tower_star_index = decode_member::<Option<u8>>(members, "towerStarIndex")?;
        let theater_mode_index = decode_member::<Option<u8>>(members, "theaterModeIndex")?;
        let theater_act_index = decode_member::<Option<u8>>(members, "theaterActIndex")?;
        let theater_star_index = decode_member::<Option<u8>>(members, "theaterStarIndex")?;
        let is_show_avatar_talent = decode_member::<Option<bool>>(members, "isShowAvatarTalent")?;
        let show_avatar_info_list = decode_member::<Option<Vec<ShowAvatarInfo>>>(members, "showAvatarInfoList")?;
        let show_name_card_id_list = decode_member::<Option<Vec<u64>>>(members, "showNameCardIdList")?;
        let profile_picture = decode_member::<ProfilePicture>(members, "profilePicture")?;
        let fetter_count = decode_member::<Option<u8>>(members, "fetterCount")?;
        Ok(PlayerInfo { nickname, level, signature, world_level, name_card_id, finish_achievement_num, tower_floor_index, tower_level_index, tower_star_index, theater_mode_index, theater_act_index, theater_star_index, is_show_avatar_talent, show_avatar_info_list, show_name_card_id_list, profile_picture, fetter_count })
    }
}

impl ToJson for PlayerInfo {
    open spec fn encodes_null(&self) -> bool {
        false
    }

    open spec fn encodable(&self) -> bool {
        &&& self.nickname.encodable()
        &&& self.level.encodable()
        &&& self.signature.encodable()
        &&& self.world_level.encodable()
        &&& self.name_card_id.encodable()
        &&& self.finish_achievement_num.encodable()
        &&& self.tower_floor_index.encodable()
        &&& self.tower_level_index.encodable()
        &&& self.tower_star_index.encodable()
        &&& self.theater_mode_index.encodable()
        &&& self.theater_act_index.encodable()
        &&& self.theater_star_index.encodable()
        &&& self.is_show_avatar_talent.encodable()
        &&& self.show_avatar_info_list.encodable()
        &&& self.show_name_card_id_list.encodable()
        &&& self.profile_picture.encodable()
        &&& self.fetter_count.encodable()
    }

    fn to_json(&self) -> (r: Json) {
        let mut members: Vec<(String, Json)> = Vec::new();
        members.push((String::from_str("nickname"), self.nickname.to_json()));
        members.push((String::from_str("level"), self.level.to_json()));
        members.push((String::from_str("signature"), self.signature.to_json()));
        members.push((String::from_str("worldLevel"), self.world_level.to_json()));
        members.push((String::from_str("nameCardId"), self.name_card_id.to_json()));
        members.push((String::from_str("finishAchievementNum"), self.finish_achievement_num.to_json()));
        members.push((String::from_str("towerFloorIndex"), self.tower_floor_index.to_json()));
        members.push((String::from_str("towerLevelIndex"), self.tower_level_index.to_json()));
        members.push((String::from_str("towerStarIndex"), self.tower_star_index.to_json()));
        members.push((String::from_str("theaterModeIndex"), self.theater_mode_index.to_json()));
        members.push((String::from_str("theaterActIndex"), self.theater_act_index.to_json()));
        members.push((String::from_str("theaterStarIndex"), self.theater_star_index.to_json()));
        members.push((String::from_str("isShowAvatarTalent"), self.is_show_avatar_talent.to_json()));
        members.push((String::from_str("showAvatarInfoList"), self.show_avatar_info_list.to_json()));
        members.push((String::from_str("showNameCardIdList"), self.show_name_card_id_list.to_json()));
        members.push((String::from_str("profilePicture"), self.profile_picture.to_json()));
        members.push((String::from_str("fetterCount"), self.fetter_count.to_json()));
        proof {
            reveal_strlit("nickname");
            assert("nickname"@.len() == 8);
            reveal_strlit("level");
            assert("level"@.len() == 5);
            reveal_strlit("signature");
            assert("signature"@.len() == 9);
            reveal_strlit("worldLevel");
            assert("worldLevel"@.len() == 10);
            reveal_strlit("nameCardId");
            assert("nameCardId"@.len() == 10);
            reveal_strlit("finishAchievementNum");
            assert("finishAchievementNum"@.len() == 20);
            reveal_strlit("towerFloorIndex");
            assert("towerFloorIndex"@.len() == 15);
            reveal_strlit("towerLevelIndex");
            assert("towerLevelIndex"@.len() == 15);
            reveal_strlit("towerStarIndex");
            assert("towerStarIndex"@.len() == 14);
            reveal_strlit("theaterModeIndex");
            assert("theaterModeIndex"@.len() == 16);
            reveal_strlit("theaterActIndex");
            assert("theaterActIndex"@.len() == 15);
            reveal_strlit("theaterStarIndex");
            assert("theaterStarIndex"@.len() == 16);
            reveal_strlit("isShowAvatarTalent");
            assert("isShowAvatarTalent"@.len() == 18);
            reveal_strlit("showAvatarInfoList");
            assert("showAvatarInfoList"@.len() == 18);
            reveal_strlit("showNameCardIdList");
            assert("showNameCardIdList"@.len() == 18);
            reveal_strlit("profilePicture");
            assert("profilePicture"@.len() == 14);
            reveal_strlit("fetterCount");
            assert("fetterCount"@.len() == 11);
            assert("worldLevel"@[0] != "nameCardId"@[0]);
            assert("towerFloorIndex"@[5] != "towerLevelIndex"@[5]);
            assert("towerFloorIndex"@[1] != "theaterActIndex"@[1]);
            assert("towerLevelIndex"@[1] != "theaterActIndex"@[1]);
            assert("theaterModeIndex"@[7] != "theaterStarIndex"@[7]);
            assert("isShowAvatarTalent"@[0] != "showAvatarInfoList"@[0]);
            assert("isShowAvatarTalent"@[0] != "showNameCardIdList"@[0]);
            assert("showAvatarInfoList"@[4] != "showNameCardIdList"@[4]);
            assert("towerStarIndex"@[0] != "profilePicture"@[0]);
            let names = seq!["nickname", "level", "signature", "worldLevel", "nameCardId", "finishAchievementNum", "towerFloorIndex", "towerLevelIndex", "towerStarIndex", "theaterModeIndex", "theaterActIndex", "theaterStarIndex", "isShowAvatarTalent", "showAvatarInfoList", "showNameCardIdList", "profilePicture", "fetterCount"];
            lemma_object_members(members@, names);
            assert(names[0] == "nickname");
            assert(names[1] == "level");
            assert(names[2] == "signature");
            assert(names[3] == "worldLevel");
            assert(names[4] == "nameCardId");
            assert(names[5] == "finishAchievementNum");
            assert(names[6] == "towerFloorIndex");
            assert(names[7] == "towerLevelIndex");
            assert(names[8] == "towerStarIndex");
            assert(names[9] == "theaterModeIndex");
            assert(names[10] == "theaterActIndex");
            assert(names[11] == "theaterStarIndex");
            assert(names[12] == "isShowAvatarTalent");
            assert(names[13] == "showAvatarInfoList");
            assert(names[14] == "showNameCardIdList");
            assert(names[15] == "profilePicture");
            assert(names[16] == "fetterCount");
        }
        Json::Object(members)
    }
}

/// One property of a character; `prop_type` is the member `type`.
#[derive(Debug, PartialEq, Eq)]
pub struct PropMap {
    pub prop_type: Prop,
    pub ival: Option<String>,
    pub val: Option<String>,
}

impl FromJson for PropMap {
    open spec fn accepts(j: Json) -> bool {
        &&& only_declared(j, seq!["type", "ival", "val"])
        &&& <Prop as FromJson>::accepts(field(j, "type"@))
        &&& <Option<String> as FromJson>::accepts(field(j, "ival"@))
        &&& <Option<String> as FromJson>::accepts(field(j, "val"@))
    }

    open spec fn reads(j: Json, v: PropMap) -> bool {
        &&& <Prop as FromJson>::reads(field(j, "type"@), v.prop_type)
        &&& <Option<String> as FromJson>::reads(field(j, "ival"@), v.ival)
        &&& <Option<String> as FromJson>::reads(field(j, "val"@), v.val)
    }

    open spec fn unknown_variant(j: Json) -> bool {
        false
    }

    open spec fn strict_names() -> Option<Seq<&'static str>> {
        Some(seq!["type", "ival", "val"])
    }

    proof fn lemma_strict_names(j: Json) {
    }

    fn from_json(j: &Json) -> (r: Result<PropMap, DecodeError>) {
        let names = ["type", "ival", "val"];
        assert(names@ =~= seq!["type", "ival", "val"]);
        let members = strict_members(j, &names)?;
        let prop_type = decode_member::<Prop>(members, "type")?;
        let ival = decode_member::<Option<String>>(members, "ival")?;
        let val = decode_member::<Option<String>>(members, "val")?;
        Ok(PropMap { prop_type, ival, val })
    }
}

/// A character with its properties, skills and equipment.
#[derive(Debug, PartialEq, Eq)]
pub struct AvatarInfo {
    pub avatar_id: u64,
    pub prop_map: JsonMap<Prop, PropMap>,
    pub talent_id_list: Option<Vec<u64>>,
    pub fight_prop_map: JsonMap<u32, JsonNumber>,
    pub skill_depot_id: u64,
    pub inherent_proud_skill_list: Vec<u64>,
    pub skill_level_map: JsonMap<u64, u64>,
    pub proud_skill_extra_level_map: Option<JsonMap<u64, u64>>,
    pub equip_list: Vec<Equip>,
    pub fetter_info: Option<AvatarInfoFetterInfo>,
    pub costume_id: Option<u64>,
}

impl FromJson for AvatarInfo {
    open spec fn accepts(j: Json) -> bool {
        &&& only_declared(j, seq!["avatarId", "propMap", "talentIdList", "fightPropMap", "skillDepotId", "inherentProudSkillList", "skillLevelMap", "proudSkillExtraLevelMap", "equipList", "fetterInfo", "costumeId"])
        &&& <u64 as FromJson>::accepts(field(j, "avatarId"@))
        &&& <JsonMap<Prop, PropMap> as FromJson>::accepts(field(j, "propMap"@))
        &&& <Option<Vec<u64>> as FromJson>::accepts(field(j, "talentIdList"@))
        &&& <JsonMap<u32, JsonNumber> as FromJson>::accepts(field(j, "fightPropMap"@))
        &&& <u64 as FromJson>::accepts(field(j, "skillDepotId"@))
        &&& <Vec<u64> as FromJson>::accepts(field(j, "inherentProudSkillList"@))
        &&& <JsonMap<u64, u64> as FromJson>::accepts(field(j, "skillLevelMap"@))
        &&& <Option<JsonMap<u64, u64>> as FromJson>::accepts(field(j, "proudSkillExtraLevelMap"@))
        &&& <Vec<Equip> as FromJson>::accepts(field(j, "equipList"@))
        &&& <Option<AvatarInfoFetterInfo> as FromJson>::accepts(field(j, "fetterInfo"@))
        &&& <Option<u64> as FromJson>::accepts(field(j, "costumeId"@))
    }

    open spec fn reads(j: Json, v: AvatarInfo) -> bool {
        &&& <u64 as FromJson>::reads(field(j, "avatarId"@), v.avatar_id)
        &&& <JsonMap<Prop, PropMap> as FromJson>::reads(field(j, "propMap"@), v.prop_map)
        &&& <Option<Vec<u64>> as FromJson>::reads(field(j, "talentIdList"@), v.talent_id_list)
        &&& <JsonMap<u32, JsonNumber> as FromJson>::reads(field(j, "fightPropMap"@), v.fight_prop_map)
        &&& <u64 as FromJson>::reads(field(j, "skillDepotId"@), v.skill_depot_id)
        &&& <Vec<u64> as FromJson>::reads(field(j, "inherentProudSkillList"@), v.inherent_proud_skill_list)
        &&& <JsonMap<u64, u64> as FromJson>::reads(field(j, "skillLevelMap"@), v.skill_level_map)
        &&& <Option<JsonMap<u64, u64>> as FromJson>::reads(field(j, "proudSkillExtraLevelMap"@), v.proud_skill_extra_level_map)
        &&& <Vec<Equip> as FromJson>::reads(field(j, "equipList"@), v.equip_list)
        &&& <Option<AvatarInfoFetterInfo> as FromJson>::reads(field(j, "fetterInfo"@), v.fetter_info)
        &&& <Option<u64> as FromJson>::reads(field(j, "costumeId"@), v.costume_id)
    }

    open spec fn unknown_variant(j: Json) -> bool {
        false
    }

    open spec fn strict_names() -> Option<Seq<&'static str>> {
        Some(seq!["avatarId", "propMap", "talentIdList", "fightPropMap", "skillDepotId", "inherentProudSkillList", "skillLevelMap", "proudSkillExtraLevelMap", "equipList", "fetterInfo", "costumeId"])
    }

    proof fn lemma_strict_names(j: Json) {
    }

    fn from_json(j: &Json) -> (r: Result<AvatarInfo, DecodeError>) {
        let names = ["avatarId", "propMap", "talentIdList", "fightPropMap", "skillDepotId", "inherentProudSkillList", "skillLevelMap", "proudSkillExtraLevelMap", "equipList", "fetterInfo", "costumeId"];
        assert(names@ =~= seq!["avatarId", "propMap", "talentIdList", "fightPropMap", "skillDepotId", "inherentProudSkillList", "skillLevelMap", "proudSkillExtraLevelMap", "equipList", "fetterInfo", "costumeId"]);
        let members = strict_members(j, &names)?;
        let avatar_id = decode_member::<u64>(members, "avatarId")?;
        let prop_map = decode_member::<JsonMap<Prop, PropMap>>(members, "propMap")?;
        let talent_id_list = decode_member::<Option<Vec<u64>>>(members, "talentIdList")?;
        let fight_prop_map = decode_member::<JsonMap<u32, JsonNumber>>(members, "fightPropMap")?;
        let skill_depot_id = decode_member::<u64>(members, "skillDepotId")?;
        let inherent_proud_skill_list = decode_member::<Vec<u64>>(members, "inherentProudSkillList")?;
        let skill_level_map = decode_member::<JsonMap<u64, u64>>(members, "skillLevelMap")?;
        let proud_skill_extra_level_map = decode_member::<Option<JsonMap<u64, u64>>>(members, "proudSkillExtraLevelMap")?;
        let equip_list = decode_member::<Vec<Equip>>(members, "equipList")?;
        let fetter_info = decode_member::<Option<AvatarInfoFetterInfo>>(members, "fetterInfo")?;
        let costume_id = decode_member::<Option<u64>>(members, "costumeId")?;
        Ok(AvatarInfo { avatar_id, prop_map, talent_id_list, fight_prop_map, skill_depot_id, inherent_proud_skill_list, skill_level_map, proud_skill_extra_level_map, equip_list, fetter_info, costume_id })
    }
}

/// A piece of equipment: a weapon or an artifact. Which one is decided by the
/// member `itemType` of the nested object `flat`.
#[derive(Debug, PartialEq, Eq)]
pub enum Equip {
    Weapon(EquipWeapon),
    Reliquary(EquipReliquary),
}

/// The discriminator of an equipment value: `flat.itemType`.
pub open spec fn equip_tag(j: Json) -> Json {
    field(field(j, "flat"@), "itemType"@)
}

/// An equipment value is decoded by `flat.itemType`: `ITEM_WEAPON` as a
/// weapon, `ITEM_RELIQUARY` as an artifact, each of which it must then match
/// in full; any other value there is rejected.
pub proof fn lemma_equip_by_item_type(j: Json, v: Equip)
    ensures
        equip_tag(j) matches Json::Text(s) && s@ == "ITEM_WEAPON"@ ==> (Equip::accepts(j)
            <==> EquipWeapon::accepts(j)),
        equip_tag(j) matches Json::Text(s) && s@ == "ITEM_WEAPON"@ && Equip::reads(j, v) ==> (
        v matches Equip::Weapon(x) && EquipWeapon::reads(j, x)),
        equip_tag(j) matches Json::Text(s) && s@ == "ITEM_RELIQUARY"@ ==> (Equip::accepts(j)
            <==> EquipReliquary::accepts(j)),
        equip_tag(j) matches Json::Text(s) && s@ == "ITEM_RELIQUARY"@ && Equip::reads(j, v) ==> (
        v matches Equip::Reliquary(x) && EquipReliquary::reads(j, x)),
        !(equip_tag(j) matches Json::Text(s) && (s@ == "ITEM_WEAPON"@ || s@
            == "ITEM_RELIQUARY"@)) ==> !Equip::accepts(j),
{
    reveal_strlit("ITEM_WEAPON");
    reveal_strlit("ITEM_RELIQUARY");
    assert("ITEM_WEAPON"@[5] != "ITEM_RELIQUARY"@[5]);
}

impl FromJson for Equip {
    open spec fn accepts(j: Json) -> bool {
        match equip_tag(j) {
            Json::Text(s) => if s@ == "ITEM_RELIQUARY"@ {
                EquipReliquary::accepts(j)
            } else if s@ == "ITEM_WEAPON"@ {
                EquipWeapon::accepts(j)
            } else {
                false
            },
            _ => false,
        }
    }

    open spec fn reads(j: Json, v: Equip) -> bool {
        match equip_tag(j) {
            Json::Text(s) => if s@ == "ITEM_RELIQUARY"@ {
                v matches Equip::Reliquary(x) && EquipReliquary::reads(j, x)
            } else if s@ == "ITEM_WEAPON"@ {
                v matches Equip::Weapon(x) && EquipWeapon::reads(j, x)
            } else {
                false
            },
            _ => false,
        }
    }

    open spec fn unknown_variant(j: Json) -> bool {
        match equip_tag(j) {
            Json::Text(s) => s@ != "ITEM_RELIQUARY"@ && s@ != "ITEM_WEAPON"@,
            _ => true,
        }
    }

    open spec fn strict_names() -> Option<Seq<&'static str>> {
        None
    }

    proof fn lemma_strict_names(j: Json) {
    }

    fn from_json(j: &Json) -> (r: Result<Equip, DecodeError>) {
        let tag = match field_ref(j, "flat") {
            Some(flat) => field_ref(flat, "itemType"),
            None => None,
        };
        match tag {
            Some(Json::Text(s)) => {
                if *s == String::from_str("ITEM_RELIQUARY") {
                    let x = EquipReliquary::from_json(j)?;
                    Ok(Equip::Reliquary(x))
                } else if *s == String::from_str("ITEM_WEAPON") {
                    let x = EquipWeapon::from_json(j)?;
                    Ok(Equip::Weapon(x))
                } else {
                    Err(DecodeError::UnknownVariant)
                }
            },
            _ => Err(DecodeError::UnknownVariant),
        }
    }
}

/// An equipped weapon.
#[derive(Debug, PartialEq, Eq)]
pub struct EquipWeapon {
    pub item_id: u64,
    pub weapon: Weapon,
    pub flat: FlatWeapon,
}

impl FromJson for EquipWeapon {
    open spec fn accepts(j: Json) -> bool {
        &&& only_declared(j, seq!["itemId", "weapon", "flat"])
        &&& <u64 as FromJson>::accepts(field(j, "itemId"@))
        &&& <Weapon as FromJson>::accepts(field(j, "weapon"@))
        &&& <FlatWeapon as FromJson>::accepts(field(j, "flat"@))
    }

    open spec fn reads(j: Json, v: EquipWeapon) -> bool {
        &&& <u64 as FromJson>::reads(field(j, "itemId"@), v.item_id)
        &&& <Weapon as FromJson>::reads(field(j, "weapon"@), v.weapon)
        &&& <FlatWeapon as FromJson>::reads(field(j, "flat"@), v.flat)
    }

    open spec fn unknown_variant(j: Json) -> bool {
        false
    }

    open spec fn strict_names() -> Option<Seq<&'static str>> {
        Some(seq!["itemId", "weapon", "flat"])
    }

    proof fn lemma_strict_names(j: Json) {
    }

    fn from_json(j: &Json) -> (r: Result<EquipWeapon, DecodeError>) {
        let names = ["itemId", "weapon", "flat"];
        assert(names@ =~= seq!["itemId", "weapon", "flat"]);
        let members = strict_members(j, &names)?;
        let item_id = decode_member::<u64>(members, "itemId")?;
        let weapon = decode_member::<Weapon>(members, "weapon")?;
        let flat = decode_member::<FlatWeapon>(members, "flat")?;
        Ok(EquipWeapon { item_id, weapon, flat })
    }
}

/// An equipped artifact.
#[derive(Debug, PartialEq, Eq)]
pub struct EquipReliquary {
    pub item_id: u64,
    pub reliquary: Reliquary,
    pub flat: FlatReliquary,
}

impl FromJson for EquipReliquary {
    open spec fn accepts(j: Json) -> bool {
        &&& only_declared(j, seq!["itemId", "reliquary", "flat"])
        &&& <u64 as FromJson>::accepts(field(j, "itemId"@))
        &&& <Reliquary as FromJson>::accepts(field(j, "reliquary"@))
        &&& <FlatReliquary as FromJson>::accepts(field(j, "flat"@))
    }

    open spec fn reads(j: Json, v: EquipReliquary) -> bool {
        &&& <u64 as FromJson>::reads(field(j, "itemId"@), v.item_id)
        &&& <Reliquary as FromJson>::reads(field(j, "reliquary"@), v.reliquary)
        &&& <FlatReliquary as FromJson>::reads(field(j, "flat"@), v.flat)
    }

    open spec fn unknown_variant(j: Json) -> bool {
        false
    }

    open spec fn strict_names() -> Option<Seq<&'static str>> {
        Some(seq!["itemId", "reliquary", "flat"])
    }

    proof fn lemma_strict_names(j: Json) {
    }

    fn from_json(j: &Json) -> (r: Result<EquipReliquary, DecodeError>) {
        let names = ["itemId", "reliquary", "flat"];
        assert(names@ =~= seq!["itemId", "reliquary", "flat"]);
        let members = strict_members(j, &names)?;
        let item_id = decode_member::<u64>(members, "itemId")?;
        let reliquary = decode_member::<Reliquary>(members, "reliquary")?;
        let flat = decode_member::<FlatReliquary>(members, "flat")?;
        Ok(EquipReliquary { item_id, reliquary, flat })
    }
}

/// A weapon's level and refinements.
#[derive(Debug, PartialEq, Eq)]
pub struct Weapon {
    pub level: u8,
    pub promote_level: Option<u8>,
    pub affix_map: Option<JsonMap<u64, u64>>,
}

impl FromJson for Weapon {
    open spec fn accepts(j: Json) -> bool {
        &&& only_declared(j, seq!["level", "promoteLevel", "affixMap"])
        &&& <u8 as FromJson>::accepts(field(j, "level"@))
        &&& <Option<u8> as FromJson>::accepts(field(j, "promoteLevel"@))
        &&& <Option<JsonMap<u64, u64>> as FromJson>::accepts(field(j, "affixMap"@))
    }

    open spec fn reads(j: Json, v: Weapon) -> bool {
        &&& <u8 as FromJson>::reads(field(j, "level"@), v.level)
        &&& <Option<u8> as FromJson>::reads(field(j, "promoteLevel"@), v.promote_level)
        &&& <Option<JsonMap<u64, u64>> as FromJson>::reads(field(j, "affixMap"@), v.affix_map)
    }

    open spec fn unknown_variant(j: Json) -> bool {
        false
    }

    open spec fn strict_names() -> Option<Seq<&'static str>> {
        Some(seq!["level", "promoteLevel", "affixMap"])
    }

    proof fn lemma_strict_names(j: Json) {
    }

    fn from_json(j: &Json) -> (r: Result<Weapon, DecodeError>) {
        let names = ["level", "promoteLevel", "affixMap"];
        assert(names@ =~= seq!["level", "promoteLevel", "affixMap"]);
        let members = strict_members(j, &names)?;
        let level = decode_member::<u8>(members, "level")?;
        let promote_level = decode_member::<Option<u8>>(members, "promoteLevel")?;
        let affix_map = decode_member::<Option<JsonMap<u64, u64>>>(members, "affixMap")?;
        Ok(Weapon { level, promote_level, affix_map })
    }
}

/// An artifact's level and stat ids.
#[derive(Debug, PartialEq, Eq)]
pub struct Reliquary {
    pub level: u8,
    pub exp: Option<u64>,
    pub main_prop_id: u32,
    pub append_prop_id_list: Option<Vec<u32>>,
}

impl FromJson for Reliquary {
    open spec fn accepts(j: Json) -> bool {
        &&& only_declared(j, seq!["level", "exp", "mainPropId", "appendPropIdList"])
        &&& <u8 as FromJson>::accepts(field(j, "level"@))
        &&& <Option<u64> as FromJson>::accepts(field(j, "exp"@))
        &&& <u32 as FromJson>::accepts(field(j, "mainPropId"@))
        &&& <Option<Vec<u32>> as FromJson>::accepts(field(j, "appendPropIdList"@))
    }

    open spec fn reads(j: Json, v: Reliquary) -> bool {
        &&& <u8 as FromJson>::reads(field(j, "level"@), v.level)
        &&& <Option<u64> as FromJson>::reads(field(j, "exp"@), v.exp)
        &&& <u32 as FromJson>::reads(field(j, "mainPropId"@), v.main_prop_id)
        &&& <Option<Vec<u32>> as FromJson>::reads(field(j, "appendPropIdList"@), v.append_prop_id_list)
    }

    open spec fn unknown_variant(j: Json) -> bool {
        false
    }

    open spec fn strict_names() -> Option<Seq<&'static str>> {
        Some(seq!["level", "exp", "mainPropId", "appendPropIdList"])
    }

    proof fn lemma_strict_names(j: Json) {
    }

    fn from_json(j: &Json) -> (r: Result<Reliquary, DecodeError>) {
        let names = ["level", "exp", "mainPropId", "appendPropIdList"];
        assert(names@ =~= seq!["level", "exp", "mainPropId", "appendPropIdList"]);
        let members = strict_members(j, &names)?;
        let level = decode_member::<u8>(members, "level")?;
        let exp = decode_member::<Option<u64>>(members, "exp")?;
        let main_prop_id = decode_member::<u32>(members, "mainPropId")?;
        let append_prop_id_list = decode_member::<Option<Vec<u32>>>(members, "appendPropIdList")?;
        Ok(Reliquary { level, exp, main_prop_id, append_prop_id_list })
    }
}

/// A weapon's display data.
#[derive(Debug, PartialEq, Eq)]
pub struct FlatWeapon {
    pub name_text_map_hash: TextMapHash,
    pub rank_level: u8,
    pub item_type: String,
    pub icon: String,
    pub weapon_stats: Vec<SubStat>,
}

impl FromJson for FlatWeapon {
    open spec fn accepts(j: Json) -> bool {
        &&& only_declared(j, seq!["nameTextMapHash", "rankLevel", "itemType", "icon", "weaponStats"])
        &&& <TextMapHash as FromJson>::accepts(field(j, "nameTextMapHash"@))
        &&& <u8 as FromJson>::accepts(field(j, "rankLevel"@))
        &&& <String as FromJson>::accepts(field(j, "itemType"@))
        &&& <String as FromJson>::accepts(field(j, "icon"@))
        &&& <Vec<SubStat> as FromJson>::accepts(field(j, "weaponStats"@))
    }

    open spec fn reads(j: Json, v: FlatWeapon) -> bool {
        &&& <TextMapHash as FromJson>::reads(field(j, "nameTextMapHash"@), v.name_text_map_hash)
        &&& <u8 as FromJson>::reads(field(j, "rankLevel"@), v.rank_level)
        &&& <String as FromJson>::reads(field(j, "itemType"@), v.item_type)
        &&& <String as FromJson>::reads(field(j, "icon"@), v.icon)
        &&& <Vec<SubStat> as FromJson>::reads(field(j, "weaponStats"@), v.weapon_stats)
    }

    open spec fn unknown_variant(j: Json) -> bool {
        false
    }

    open spec fn strict_names() -> Option<Seq<&'static str>> {
        Some(seq!["nameTextMapHash", "rankLevel", "itemType", "icon", "weaponStats"])
    }

    proof fn lemma_strict_names(j: Json) {
    }

    fn from_json(j: &Json) -> (r: Result<FlatWeapon, DecodeError>) {
        let names = ["nameTextMapHash", "rankLevel", "itemType", "icon", "weaponStats"];
        assert(names@ =~= seq!["nameTextMapHash", "rankLevel", "itemType", "icon", "weaponStats"]);
        let members = strict_members(j, &names)?;
        let name_text_map_hash = decode_member::<TextMapHash>(members, "nameTextMapHash")?;
        let rank_level = decode_member::<u8>(members, "rankLevel")?;
        let item_type = decode_member::<String>(members, "itemType")?;
        let icon = decode_member::<String>(members, "icon")?;
        let weapon_stats = decode_member::<Vec<SubStat>>(members, "weaponStats")?;
        Ok(FlatWeapon { name_text_map_hash, rank_level, item_type, icon, weapon_stats })
    }
}

/// An artifact's display data.
#[derive(Debug, PartialEq, Eq)]
pub struct FlatReliquary {
    pub name_text_map_hash: TextMapHash,
    pub set_name_text_map_hash: TextMapHash,
    pub rank_level: u8,
    pub reliquary_mainstat: MainStat,
    pub reliquary_substats: Option<Vec<SubStat>>,
    pub item_type: String,
    pub icon: String,
    pub equip_type: String,
}

impl FromJson for FlatReliquary {
    open spec fn accepts(j: Json) -> bool {
        &&& only_declared(j, seq!["nameTextMapHash", "setNameTextMapHash", "rankLevel", "reliquaryMainstat", "reliquarySubstats", "itemType", "icon", "equipType"])
        &&& <TextMapHash as FromJson>::accepts(field(j, "nameTextMapHash"@))
        &&& <TextMapHash as FromJson>::accepts(field(j, "setNameTextMapHash"@))
        &&& <u8 as FromJson>::accepts(field(j, "rankLevel"@))
        &&& <MainStat as FromJson>::accepts(field(j, "reliquaryMainstat"@))
        &&& <Option<Vec<SubStat>> as FromJson>::accepts(field(j, "reliquarySubstats"@))
        &&& <String as FromJson>::accepts(field(j, "itemType"@))
        &&& <String as FromJson>::accepts(field(j, "icon"@))
        &&& <String as FromJson>::accepts(field(j, "equipType"@))
    }

    open spec fn reads(j: Json, v: FlatReliquary) -> bool {
        &&& <TextMapHash as FromJson>::reads(field(j, "nameTextMapHash"@), v.name_text_map_hash)
        &&& <TextMapHash as FromJson>::reads(field(j, "setNameTextMapHash"@), v.set_name_text_map_hash)
        &&& <u8 as FromJson>::reads(field(j, "rankLevel"@), v.rank_level)
        &&& <MainStat as FromJson>::reads(field(j, "reliquaryMainstat"@), v.reliquary_mainstat)
        &&& <Option<Vec<SubStat>> as FromJson>::reads(field(j, "reliquarySubstats"@), v.reliquary_substats)
        &&& <String as FromJson>::reads(field(j, "itemType"@), v.item_type)
        &&& <String as FromJson>::reads(field(j, "icon"@), v.icon)
        &&& <String as FromJson>::reads(field(j, "equipType"@), v.equip_type)
    }

    open spec fn unknown_variant(j: Json) -> bool {
        false
    }

    open spec fn strict_names() -> Option<Seq<&'static str>> {
        Some(seq!["nameTextMapHash", "setNameTextMapHash", "rankLevel", "reliquaryMainstat", "reliquarySubstats", "itemType", "icon", "equipType"])
    }

    proof fn lemma_strict_names(j: Json) {
    }

    fn from_json(j: &Json) -> (r: Result<FlatReliquary, DecodeError>) {
        let names = ["nameTextMapHash", "setNameTextMapHash", "rankLevel", "reliquaryMainstat", "reliquarySubstats", "itemType", "icon", "equipType"];
        assert(names@ =~= seq!["nameTextMapHash", "setNameTextMapHash", "rankLevel", "reliquaryMainstat", "reliquarySubstats", "itemType", "icon", "equipType"]);
        let members = strict_members(j, &names)?;
        let name_text_map_hash = decode_member::<TextMapHash>(members, "nameTextMapHash")?;
        let set_name_text_map_hash = decode_member::<TextMapHash>(members, "setNameTextMapHash")?;
        let rank_level = decode_member::<u8>(members, "rankLevel")?;
        let reliquary_mainstat = decode_member::<MainStat>(members, "reliquaryMainstat")?;
        let reliquary_substats = decode_member::<Option<Vec<SubStat>>>(members, "reliquarySubstats")?;
        let item_type = decode_member::<String>(members, "itemType")?;
        let icon = decode_member::<String>(members, "icon")?;
        let equip_type = decode_member::<String>(members, "equipType")?;
        Ok(FlatReliquary { name_text_map_hash, set_name_text_map_hash, rank_level, reliquary_mainstat, reliquary_substats, item_type, icon, equip_type })
    }
}

/// An artifact's main stat.
#[derive(Debug, PartialEq, Eq)]
pub struct MainStat {
    pub main_prop_id: String,
    pub stat_value: JsonNumber,
}

impl FromJson for MainStat {
    open spec fn accepts(j: Json) -> bool {
        &&& only_declared(j, seq!["mainPropId", "statValue"])
        &&& <String as FromJson>::accepts(field(j, "mainPropId"@))
        &&& <JsonNumber as FromJson>::accepts(field(j, "statValue"@))
    }

    open spec fn reads(j: Json, v: MainStat) -> bool {
        &&& <String as FromJson>::reads(field(j, "mainPropId"@), v.main_prop_id)
        &&& <JsonNumber as FromJson>::reads(field(j, "statValue"@), v.stat_value)
    }

    open spec fn unknown_variant(j: Json) -> bool {
        false
    }

    open spec fn strict_names() -> Option<Seq<&'static str>> {
        Some(seq!["mainPropId", "statValue"])
    }

    proof fn lemma_strict_names(j: Json) {
    }

    fn from_json(j: &Json) -> (r: Result<MainStat, DecodeError>) {
        let names = ["mainPropId", "statValue"];
        assert(names@ =~= seq!["mainPropId", "statValue"]);
        let members = strict_members(j, &names)?;
        let main_prop_id = decode_member::<String>(members, "mainPropId")?;
        let stat_value = decode_member::<JsonNumber>(members, "statValue")?;
        Ok(MainStat { main_prop_id, stat_value })
    }
}

/// A secondary stat of an artifact or weapon.
#[derive(Debug, PartialEq, Eq)]
pub struct SubStat {
    pub append_prop_id: String,
    pub stat_value: JsonNumber,
}

impl FromJson for SubStat {
    open spec fn accepts(j: Json) -> bool {
        &&& only_declared(j, seq!["appendPropId", "statValue"])
        &&& <String as FromJson>::accepts(field(j, "appendPropId"@))
        &&& <JsonNumber as FromJson>::accepts(field(j, "statValue"@))
    }

    open spec fn reads(j: Json, v: SubStat) -> bool {
        &&& <String as FromJson>::reads(field(j, "appendPropId"@), v.append_prop_id)
        &&& <JsonNumber as FromJson>::reads(field(j, "statValue"@), v.stat_value)
    }

    open spec fn unknown_variant(j: Json) -> bool {
        false
    }

    open spec fn strict_names() -> Option<Seq<&'static str>> {
        Some(seq!["appendPropId", "statValue"])
    }

    proof fn lemma_strict_names(j: Json) {
    }

    fn from_json(j: &Json) -> (r: Result<SubStat, DecodeError>) {
        let names = ["appendPropId", "statValue"];
        assert(names@ =~= seq!["appendPropId", "statValue"]);
        let members = strict_members(j, &names)?;
        let append_prop_id = decode_member::<String>(members, "appendPropId")?;
        let stat_value = decode_member::<JsonNumber>(members, "statValue")?;
        Ok(SubStat { append_prop_id, stat_value })
    }
}

impl ToJson for EquipReliquary {
    open spec fn encodes_null(&self) -> bool {
        false
    }

    open spec fn encodable(&self) -> bool {
        &&& self.item_id.encodable()
        &&& self.reliquary.encodable()
        &&& self.flat.encodable()
    }

    fn to_json(&self) -> (r: Json) {
        let mut members: Vec<(String, Json)> = Vec::new();
        members.push((String::from_str("itemId"), self.item_id.to_json()));
        members.push((String::from_str("reliquary"), self.reliquary.to_json()));
        members.push((String::from_str("flat"), self.flat.to_json()));
        proof {
            reveal_strlit("itemId");
            assert("itemId"@.len() == 6);
            reveal_strlit("reliquary");
            assert("reliquary"@.len() == 9);
            reveal_strlit("flat");
            assert("flat"@.len() == 4);
            let names = seq!["itemId", "reliquary", "flat"];
            lemma_object_members(members@, names);
            assert(names[0] == "itemId");
            assert(names[1] == "reliquary");
            assert(names[2] == "flat");
        }
        Json::Object(members)
    }
}

impl ToJson for Reliquary {
    open spec fn encodes_null(&self) -> bool {
        false
    }

    open spec fn encodable(&self) -> bool {
        &&& self.level.encodable()
        &&& self.exp.encodable()
        &&& self.main_prop_id.encodable()
        &&& self.append_prop_id_list.encodable()
    }

    fn to_json(&self) -> (r: Json) {
        let mut members: Vec<(String, Json)> = Vec::new();
        members.push((String::from_str("level"), self.level.to_json()));
        members.push((String::from_str("exp"), self.exp.to_json()));
        members.push((String::from_str("mainPropId"), self.main_prop_id.to_json()));
        members.push((String::from_str("appendPropIdList"), self.append_prop_id_list.to_json()));
        proof {
            reveal_strlit("level");
            assert("level"@.len() == 5);
            reveal_strlit("exp");
            assert("exp"@.len() == 3);
            reveal_strlit("mainPropId");
            assert("mainPropId"@.len() == 10);
            reveal_strlit("appendPropIdList");
            assert("appendPropIdList"@.len() == 16);
            let names = seq!["level", "exp", "mainPropId", "appendPropIdList"];
            lemma_object_members(members@, names);
            assert(names[0] == "level");
            assert(names[1] == "exp");
            assert(names[2] == "mainPropId");
            assert(names[3] == "appendPropIdList");
        }
        Json::Object(members)
    }
}

impl ToJson for FlatWeapon {
    open spec fn encodes_null(&self) -> bool {
        false
    }

    open spec fn encodable(&self) -> bool {
        &&& self.name_text_map_hash.encodable()
        &&& self.rank_level.encodable()
        &&& self.item_type.encodable()
        &&& self.icon.encodable()
        &&& self.weapon_stats.encodable()
    }

    fn to_json(&self) -> (r: Json) {
        let mut members: Vec<(String, Json)> = Vec::new();
        members.push((String::from_str("nameTextMapHash"), self.name_text_map_hash.to_json()));
        members.push((String::from_str("rankLevel"), self.rank_level.to_json()));
        members.push((String::from_str("itemType"), self.item_type.to_json()));
        members.push((String::from_str("icon"), self.icon.to_json()));
        members.push((String::from_str("weaponStats"), self.weapon_stats.to_json()));
        proof {
            reveal_strlit("nameTextMapHash");
            assert("nameTextMapHash"@.len() == 15);
            reveal_strlit("rankLevel");
            assert("rankLevel"@.len() == 9);
            reveal_strlit("itemType");
            assert("itemType"@.len() == 8);
            reveal_strlit("icon");
            assert("icon"@.len() == 4);
            reveal_strlit("weaponStats");
            assert("weaponStats"@.len() == 11);
            let names = seq!["nameTextMapHash", "rankLevel", "itemType", "icon", "weaponStats"];
            lemma_object_members(members@, names);
            assert(names[0] == "nameTextMapHash");
            assert(names[1] == "rankLevel");
            assert(names[2] == "itemType");
            assert(names[3] == "icon");
            assert(names[4] == "weaponStats");
        }
        Json::Object(members)
    }
}

impl ToJson for FlatReliquary {
    open spec fn encodes_null(&self) -> bool {
        false
    }

    open spec fn encodable(&self) -> bool {
        &&& self.name_text_map_hash.encodable()
        &&& self.set_name_text_map_hash.encodable()
        &&& self.rank_level.encodable()
        &&& self.reliquary_mainstat.encodable()
        &&& self.reliquary_substats.encodable()
        &&& self.item_type.encodable()
        &&& self.icon.encodable()
        &&& self.equip_type.encodable()
    }

    fn to_json(&self) -> (r: Json) {
        let mut members: Vec<(String, Json)> = Vec::new();
        members.push((String::from_str("nameTextMapHash"), self.name_text_map_hash.to_json()));
        members.push((String::from_str("setNameTextMapHash"), self.set_name_text_map_hash.to_json()));
        members.push((String::from_str("rankLevel"), self.rank_level.to_json()));
        members.push((String::from_str("reliquaryMainstat"), self.reliquary_mainstat.to_json()));
        members.push((String::from_str("reliquarySubstats"), self.reliquary_substats.to_json()));
        members.push((String::from_str("itemType"), self.item_type.to_json()));
        members.push((String::from_str("icon"), self.icon.to_json()));
        members.push((String::from_str("equipType"), self.equip_type.to_json()));
        proof {
            reveal_strlit("nameTextMapHash");
            assert("nameTextMapHash"@.len() == 15);
            reveal_strlit("setNameTextMapHash");
            assert("setNameTextMapHash"@.len() == 18);
            reveal_strlit("rankLevel");
            assert("rankLevel"@.len() == 9);
            reveal_strlit("reliquaryMainstat");
            assert("reliquaryMainstat"@.len() == 17);
            reveal_strlit("reliquarySubstats");
            assert("reliquarySubstats"@.len() == 17);
            reveal_strlit("itemType");
            assert("itemType"@.len() == 8);
            reveal_strlit("icon");
            assert("icon"@.len() == 4);
            reveal_strlit("equipType");
            assert("equipType"@.len() == 9);
            assert("reliquaryMainstat"@[9] != "reliquarySubstats"@[9]);
            assert("rankLevel"@[0] != "equipType"@[0]);
            let names = seq!["nameTextMapHash", "setNameTextMapHash", "rankLevel", "reliquaryMainstat", "reliquarySubstats", "itemType", "icon", "equipType"];
            lemma_object_members(members@, names);
            assert(names[0] == "nameTextMapHash");
            assert(names[1] == "setNameTextMapHash");
            assert(names[2] == "rankLevel");
            assert(names[3] == "reliquaryMainstat");
            assert(names[4] == "reliquarySubstats");
            assert(names[5] == "itemType");
            assert(names[6] == "icon");
            assert(names[7] == "equipType");
        }
        Json::Object(members)
    }
}

impl ToJson for MainStat {
    open spec fn encodes_null(&self) -> bool {
        false
    }

    open spec fn encodable(&self) -> bool {
        &&& self.main_prop_id.encodable()
        &&& self.stat_value.encodable()
    }

    fn to_json(&self) -> (r: Json) {
        let mut members: Vec<(String, Json)> = Vec::new();
        members.push((String::from_str("mainPropId"), self.main_prop_id.to_json()));
        members.push((String::from_str("statValue"), self.stat_value.to_json()));
        proof {
            reveal_strlit("mainPropId");
            assert("mainPropId"@.len() == 10);
            reveal_strlit("statValue");
            assert("statValue"@.len() == 9);
            let names = seq!["mainPropId", "statValue"];
            lemma_object_members(members@, names);
            assert(names[0] == "mainPropId");
            assert(names[1] == "statValue");
        }
        Json::Object(members)
    }
}

impl ToJson for SubStat {
    open spec fn encodes_null(&self) -> bool {
        false
    }

    open spec fn encodable(&self) -> bool {
        &&& self.append_prop_id.encodable()
        &&& self.stat_value.encodable()
    }

    fn to_json(&self) -> (r: Json) {
        let mut members: Vec<(String, Json)> = Vec::new();
        members.push((String::from_str("appendPropId"), self.append_prop_id.to_json()));
        members.push((String::from_str("statValue"), self.stat_value.to_json()));
        proof {
            reveal_strlit("appendPropId");
            assert("appendPropId"@.len() == 12);
            reveal_strlit("statValue");
            assert("statValue"@.len() == 9);
            let names = seq!["appendPropId", "statValue"];
            lemma_object_members(members@, names);
            assert(names[0] == "appendPropId");
            assert(names[1] == "statValue");
        }
        Json::Object(members)
    }
}

impl ToJson for EquipWeapon {
    open spec fn encodes_null(&self) -> bool {
        false
    }

    open spec fn encodable(&self) -> bool {
        &&& self.item_id.encodable()
        &&& self.weapon.encodable()
        &&& self.flat.encodable()
    }

    fn to_json(&self) -> (r: Json) {
        let mut members: Vec<(String, Json)> = Vec::new();
        members.push((String::from_str("itemId"), self.item_id.to_json()));
        members.push((String::from_str("weapon"), self.weapon.to_json()));
        members.push((String::from_str("flat"), self.flat.to_json()));
        proof {
            reveal_strlit("itemId");
            assert("itemId"@.len() == 6);
            reveal_strlit("weapon");
            assert("weapon"@.len() == 6);
            reveal_strlit("flat");
            assert("flat"@.len() == 4);
            assert("itemId"@[0] != "weapon"@[0]);
            let names = seq!["itemId", "weapon", "flat"];
            lemma_object_members(members@, names);
            assert(names[0] == "itemId");
            assert(names[1] == "weapon");
            assert(names[2] == "flat");
        }
        Json::Object(members)
    }
}

impl ToJson for Weapon {
    open spec fn encodes_null(&self) -> bool {
        false
    }

    open spec fn encodable(&self) -> bool {
        &&& self.level.encodable()
        &&& self.promote_level.encodable()
        &&& self.affix_map.encodable()
    }

    fn to_json(&self) -> (r: Json) {
        let mut members: Vec<(String, Json)> = Vec::new();
        members.push((String::from_str("level"), self.level.to_json()));
        members.push((String::from_str("promoteLevel"), self.promote_level.to_json()));
        members.push((String::from_str("affixMap"), self.affix_map.to_json()));
        proof {
            reveal_strlit("level");
            assert("level"@.len() == 5);
            reveal_strlit("promoteLevel");
            assert("promoteLevel"@.len() == 12);
            reveal_strlit("affixMap");
            assert("affixMap"@.len() == 8);
            let names = seq!["level", "promoteLevel", "affixMap"];
            lemma_object_members(members@, names);
            assert(names[0] == "level");
            assert(names[1] == "promoteLevel");
            assert(names[2] == "affixMap");
        }
        Json::Object(members)
    }
}

impl ToJson for PropMap {
    open spec fn encodes_null(&self) -> bool {
        false
    }

    open spec fn encodable(&self) -> bool {
        &&& self.prop_type.encodable()
        &&& self.ival.encodable()
        &&& self.val.encodable()
    }

    fn to_json(&self) -> (r: Json) {
        let mut members: Vec<(String, Json)> = Vec::new();
        members.push((String::from_str("type"), self.prop_type.to_json()));
        members.push((String::from_str("ival"), self.ival.to_json()));
        members.push((String::from_str("val"), self.val.to_json()));
        proof {
            reveal_strlit("type");
            assert("type"@.len() == 4);
            reveal_strlit("ival");
            assert("ival"@.len() == 4);
            reveal_strlit("val");
            assert("val"@.len() == 3);
            assert("type"@[0] != "ival"@[0]);
            let names = seq!["type", "ival", "val"];
            lemma_object_members(members@, names);
            assert(names[0] == "type");
            assert(names[1] == "ival");
            assert(names[2] == "val");
        }
        Json::Object(members)
    }
}

impl ToJson for AvatarInfo {
    open spec fn encodes_null(&self) -> bool {
        false
    }

    open spec fn encodable(&self) -> bool {
        &&& self.avatar_id.encodable()
        &&& self.prop_map.encodable()
        &&& self.talent_id_list.encodable()
        &&& self.fight_prop_map.encodable()
        &&& self.skill_depot_id.encodable()
        &&& self.inherent_proud_skill_list.encodable()
        &&& self.skill_level_map.encodable()
        &&& self.proud_skill_extra_level_map.encodable()
        &&& self.equip_list.encodable()
        &&& self.fetter_info.encodable()
        &&& self.costume_id.encodable()
    }

    #[verifier::rlimit(60)]
    fn to_json(&self) -> (r: Json) {
        let mut members: Vec<(String, Json)> = Vec::new();
        members.push((String::from_str("avatarId"), self.avatar_id.to_json()));
        members.push((String::from_str("propMap"), self.prop_map.to_json()));
        members.push((String::from_str("talentIdList"), self.talent_id_list.to_json()));
        members.push((String::from_str("fightPropMap"), self.fight_prop_map.to_json()));
        members.push((String::from_str("skillDepotId"), self.skill_depot_id.to_json()));
        members.push((String::from_str("inherentProudSkillList"), self.inherent_proud_skill_list.to_json()));
        members.push((String::from_str("skillLevelMap"), self.skill_level_map.to_json()));
        members.push((String::from_str("proudSkillExtraLevelMap"), self.proud_skill_extra_level_map.to_json()));
        members.push((String::from_str("equipList"), self.equip_list.to_json()));
        members.push((String::from_str("fetterInfo"), self.fetter_info.to_json()));
        members.push((String::from_str("costumeId"), self.costume_id.to_json()));
        proof {
            reveal_strlit("avatarId");
            assert("avatarId"@.len() == 8);
            reveal_strlit("propMap");
            assert("propMap"@.len() == 7);
            reveal_strlit("talentIdList");
            assert("talentIdList"@.len() == 12);
            reveal_strlit("fightPropMap");
            assert("fightPropMap"@.len() == 12);
            reveal_strlit("skillDepotId");
            assert("skillDepotId"@.len() == 12);
            reveal_strlit("inherentProudSkillList");
            assert("inherentProudSkillList"@.len() == 22);
            reveal_strlit("skillLevelMap");
            assert("skillLevelMap"@.len() == 13);
            reveal_strlit("proudSkillExtraLevelMap");
            assert("proudSkillExtraLevelMap"@.len() == 23);
            reveal_strlit("equipList");
            assert("equipList"@.len() == 9);
            reveal_strlit("fetterInfo");
            assert("fetterInfo"@.len() == 10);
            reveal_strlit("costumeId");
            assert("costumeId"@.len() == 9);
            assert("talentIdList"@[0] != "fightPropMap"@[0]);
            assert("talentIdList"@[0] != "skillDepotId"@[0]);
            assert("fightPropMap"@[0] != "skillDepotId"@[0]);
            assert("equipList"@[0] != "costumeId"@[0]);
            let names = seq!["avatarId", "propMap", "talentIdList", "fightPropMap", "skillDepotId", "inherentProudSkillList", "skillLevelMap", "proudSkillExtraLevelMap", "equipList", "fetterInfo", "costumeId"];
            lemma_object_members(members@, names);
            assert(names[0] == "avatarId");
            assert(names[1] == "propMap");
            assert(names[2] == "talentIdList");
            assert(names[3] == "fightPropMap");
            assert(names[4] == "skillDepotId");
            assert(names[5] == "inherentProudSkillList");
            assert(names[6] == "skillLevelMap");
            assert(names[7] == "proudSkillExtraLevelMap");
            assert(names[8] == "equipList");
            assert(names[9] == "fetterInfo");
            assert(names[10] == "costumeId");
        }
        Json::Object(members)
    }
}

/// An equipment value is written as its variant; it reads back as the same
/// variant only when `flat.item_type` names that variant.
impl ToJson for Equip {
    open spec fn encodes_null(&self) -> bool {
        false
    }

    open spec fn encodable(&self) -> bool {
        match self {
            Equip::Weapon(w) => w.flat.item_type@ == "ITEM_WEAPON"@ && w.encodable(),
            Equip::Reliquary(x) => x.flat.item_type@ == "ITEM_RELIQUARY"@ && x.encodable(),
        }
    }

    fn to_json(&self) -> (r: Json) {
        proof {
            reveal_strlit("ITEM_WEAPON");
            reveal_strlit("ITEM_RELIQUARY");
            assert("ITEM_WEAPON"@[5] != "ITEM_RELIQUARY"@[5]);
        }
        match self {
            Equip::Weapon(w) => w.to_json(),
            Equip::Reliquary(x) => x.to_json(),
        }
    }
}

} // verus!
