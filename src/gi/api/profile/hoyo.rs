//! Game accounts linked to a site account.
use vstd::prelude::*;
use crate::decode::{lemma_object_members, DecodeError, FromJson, JsonMap, decode_member, only_declared, strict_members};
use crate::json::{Json, JsonNumber, field, field_ref, lemma_same_field, lemma_same_json_symmetric, same_json};
use crate::decode::{ToJson, unsigned_of};
use crate::gi::api::{AvatarId, PlayerInfo};

pub mod builds;

verus! {

/// The identifier of a linked game account.
pub type HoyoHash = String;

/// A linked game account. Its shape depends on the member `hoyo_type`: `0` is a
/// Genshin Impact account; `1` and `2` are games this library does not model,
/// kept as the raw value.
#[derive(Debug, PartialEq, Eq)]
pub enum Hoyo {
    Genshin(GenshinHoyo),
    Other(Json),
}

/// The discriminator of an account value: the number in its member `hoyo_type`.
pub open spec fn hoyo_kind(j: Json) -> Option<u64> {
    unsigned_of(field(j, "hoyo_type"@))
}

impl FromJson for Hoyo {
    open spec fn accepts(j: Json) -> bool {
        match hoyo_kind(j) {
            Some(k) => if k == 0 {
                GenshinHoyo::accepts(j)
            } else {
                k == 1 || k == 2
            },
            None => false,
        }
    }

    open spec fn reads(j: Json, v: Hoyo) -> bool {
        match hoyo_kind(j) {
            Some(k) => if k == 0 {
                v matches Hoyo::Genshin(g) && GenshinHoyo::reads(j, g)
            } else if k == 1 || k == 2 {
                v matches Hoyo::Other(x) && same_json(x, j)
            } else {
                false
            },
            None => false,
        }
    }

    open spec fn unknown_variant(j: Json) -> bool {
        match hoyo_kind(j) {
            Some(k) => k > 2,
            None => true,
        }
    }

    open spec fn strict_names() -> Option<Seq<&'static str>> {
        None
    }

    proof fn lemma_strict_names(j: Json) {
    }

    fn from_json(j: &Json) -> (r: Result<Hoyo, DecodeError>) {
        match field_ref(j, "hoyo_type") {
            Some(Json::Number(JsonNumber::PosInt(k))) => {
                if *k == 0 {
                    let g = GenshinHoyo::from_json(j)?;
                    Ok(Hoyo::Genshin(g))
                } else if *k == 1 || *k == 2 {
                    Ok(Hoyo::Other(j.copy()))
                } else {
                    Err(DecodeError::UnknownVariant)
                }
            },
            _ => Err(DecodeError::UnknownVariant),
        }
    }
}

/// A linked Genshin Impact account.
#[derive(Debug, PartialEq, Eq)]
pub struct GenshinHoyo {
    pub uid: Option<u64>,
    pub uid_public: bool,
    pub public: bool,
    pub live_public: bool,
    pub verified: bool,
    pub player_info: PlayerInfo,
    pub hash: HoyoHash,
    pub region: Region,
    pub order: u64,
    pub avatar_order: Option<JsonMap<AvatarId, u64>>,
    pub hoyo_type: u8,
}

impl FromJson for GenshinHoyo {
    open spec fn accepts(j: Json) -> bool {
        &&& only_declared(j, seq!["uid", "uid_public", "public", "live_public", "verified", "player_info", "hash", "region", "order", "avatar_order", "hoyo_type"])
        &&& <Option<u64> as FromJson>::accepts(field(j, "uid"@))
        &&& <bool as FromJson>::accepts(field(j, "uid_public"@))
        &&& <bool as FromJson>::accepts(field(j, "public"@))
        &&& <bool as FromJson>::accepts(field(j, "live_public"@))
        &&& <bool as FromJson>::accepts(field(j, "verified"@))
        &&& <PlayerInfo as FromJson>::accepts(field(j, "player_info"@))
        &&& <HoyoHash as FromJson>::accepts(field(j, "hash"@))
        &&& <Region as FromJson>::accepts(field(j, "region"@))
        &&& <u64 as FromJson>::accepts(field(j, "order"@))
        &&& <Option<JsonMap<AvatarId, u64>> as FromJson>::accepts(field(j, "avatar_order"@))
        &&& <u8 as FromJson>::accepts(field(j, "hoyo_type"@))
    }

    open spec fn reads(j: Json, v: GenshinHoyo) -> bool {
        &&& <Option<u64> as FromJson>::reads(field(j, "uid"@), v.uid)
        &&& <bool as FromJson>::reads(field(j, "uid_public"@), v.uid_public)
        &&& <bool as FromJson>::reads(field(j, "public"@), v.public)
        &&& <bool as FromJson>::reads(field(j, "live_public"@), v.live_public)
        &&& <bool as FromJson>::reads(field(j, "verified"@), v.verified)
        &&& <PlayerInfo as FromJson>::reads(field(j, "player_info"@), v.player_info)
        &&& <HoyoHash as FromJson>::reads(field(j, "hash"@), v.hash)
        &&& <Region as FromJson>::reads(field(j, "region"@), v.region)
        &&& <u64 as FromJson>::reads(field(j, "order"@), v.order)
        &&& <Option<JsonMap<AvatarId, u64>> as FromJson>::reads(field(j, "avatar_order"@), v.avatar_order)
        &&& <u8 as FromJson>::reads(field(j, "hoyo_type"@), v.hoyo_type)
    }

    open spec fn unknown_variant(j: Json) -> bool {
        false
    }

    open spec fn strict_names() -> Option<Seq<&'static str>> {
        Some(seq!["uid", "uid_public", "public", "live_public", "verified", "player_info", "hash", "region", "order", "avatar_order", "hoyo_type"])
    }

    proof fn lemma_strict_names(j: Json) {
    }

    fn from_json(j: &Json) -> (r: Result<GenshinHoyo, DecodeError>) {
        let names = ["uid", "uid_public", "public", "live_public", "verified", "player_info", "hash", "region", "order", "avatar_order", "hoyo_type"];
        assert(names@ =~= seq!["uid", "uid_public", "public", "live_public", "verified", "player_info", "hash", "region", "order", "avatar_order", "hoyo_type"]);
        let members = strict_members(j, &names)?;
        let uid = decode_member::<Option<u64>>(members, "uid")?;
        let uid_public = decode_member::<bool>(members, "uid_public")?;
        let public = decode_member::<bool>(members, "public")?;
        let live_public = decode_member::<bool>(members, "live_public")?;
        let verified = decode_member::<bool>(members, "verified")?;
        let player_info = decode_member::<PlayerInfo>(members, "player_info")?;
        let hash = decode_member::<HoyoHash>(members, "hash")?;
        let region = decode_member::<Region>(members, "region")?;
        let order = decode_member::<u64>(members, "order")?;
        let avatar_order = decode_member::<Option<JsonMap<AvatarId, u64>>>(members, "avatar_order")?;
        let hoyo_type = decode_member::<u8>(members, "hoyo_type")?;
        Ok(GenshinHoyo { uid, uid_public, public, live_public, verified, player_info, hash, region, order, avatar_order, hoyo_type })
    }
}

/// An account value is written as its variant; it reads back as the same
/// variant only when its kind names that variant.
impl ToJson for Hoyo {
    open spec fn encodes_null(&self) -> bool {
        false
    }

    open spec fn encodable(&self) -> bool {
        match self {
            Hoyo::Genshin(g) => g.hoyo_type == 0 && g.encodable(),
            Hoyo::Other(x) => hoyo_kind(*x) == Some(1u64) || hoyo_kind(*x) == Some(2u64),
        }
    }

    fn to_json(&self) -> (r: Json) {
        match self {
            Hoyo::Genshin(g) => g.to_json(),
            Hoyo::Other(x) => {
                let r = x.copy();
                proof {
                    lemma_same_json_symmetric(r, *x);
                    lemma_same_field(r, *x, "hoyo_type"@);
                }
                r
            },
        }
    }
}

/// An account value is decoded by its kind: kind `0` as a Genshin Impact
/// account, which it must then match in full; kinds `1` and `2` are kept whole
/// and unchanged; any other kind, or none, is rejected.
pub proof fn lemma_hoyo_by_kind(j: Json, v: Hoyo)
    ensures
        hoyo_kind(j) == Some(0u64) ==> (Hoyo::accepts(j) <==> GenshinHoyo::accepts(j)),
        hoyo_kind(j) == Some(0u64) && Hoyo::reads(j, v) ==> (v matches Hoyo::Genshin(g)
            && GenshinHoyo::reads(j, g)),
        hoyo_kind(j) == Some(1u64) || hoyo_kind(j) == Some(2u64) ==> Hoyo::accepts(j),
        (hoyo_kind(j) == Some(1u64) || hoyo_kind(j) == Some(2u64)) && Hoyo::reads(j, v) ==> (
        v matches Hoyo::Other(x) && same_json(x, j)),
        hoyo_kind(j) is None || hoyo_kind(j)->0 > 2 ==> !Hoyo::accepts(j),
{
}

/// The server region of a game account.
#[derive(Debug, Clone, Copy, PartialEq, Eq, Structural)]
pub enum Region {
    Internal,
    Celestia,
    Irminsul,
    America,
    Europe,
    Asia,
    TaiwanHonKongMacao,
}

/// The region named `s` on the wire.
pub open spec fn region_named(s: Seq<char>) -> Option<Region> {
    if s == ""@ {
        Some(Region::Internal)
    } else if s == "CN"@ {
        Some(Region::Celestia)
    } else if s == "B"@ {
        Some(Region::Irminsul)
    } else if s == "NA"@ {
        Some(Region::America)
    } else if s == "EU"@ {
        Some(Region::Europe)
    } else if s == "ASIA"@ {
        Some(Region::Asia)
    } else if s == "TW"@ {
        Some(Region::TaiwanHonKongMacao)
    } else {
        None
    }
}

impl FromJson for Region {
    open spec fn accepts(j: Json) -> bool {
        j matches Json::Text(s) && region_named(s@) is Some
    }

    open spec fn reads(j: Json, v: Region) -> bool {
        j matches Json::Text(s) && region_named(s@) == Some(v)
    }

    open spec fn unknown_variant(j: Json) -> bool {
        false
    }

    open spec fn strict_names() -> Option<Seq<&'static str>> {
        None
    }

    proof fn lemma_strict_names(j: Json) {
    }

    fn from_json(j: &Json) -> (r: Result<Region, DecodeError>) {
        match j {
            Json::Text(s) => {
                if *s == String::from_str("") {
                    Ok(Region::Internal)
                } else if *s == String::from_str("CN") {
                    Ok(Region::Celestia)
                } else if *s == String::from_str("B") {
                    Ok(Region::Irminsul)
                } else if *s == String::from_str("NA") {
                    Ok(Region::America)
                } else if *s == String::from_str("EU") {
                    Ok(Region::Europe)
                } else if *s == String::from_str("ASIA") {
                    Ok(Region::Asia)
                } else if *s == String::from_str("TW") {
                    Ok(Region::TaiwanHonKongMacao)
                } else {
                    Err(DecodeError::UnknownVariant)
                }
            },
            _ => Err(DecodeError::Invalid),
        }
    }
}

impl ToJson for Region {
    open spec fn encodes_null(&self) -> bool {
        false
    }

    open spec fn encodable(&self) -> bool {
        true
    }

    fn to_json(&self) -> (r: Json) {
        proof {
            reveal_strlit("");
            reveal_strlit("CN");
            reveal_strlit("B");
            reveal_strlit("NA");
            reveal_strlit("EU");
            reveal_strlit("ASIA");
            reveal_strlit("TW");
            assert(""@.len() != "CN"@.len());
            assert(""@.len() != "B"@.len());
            assert("CN"@.len() != "B"@.len());
            assert(""@.len() != "NA"@.len());
            assert("CN"@[0] != "NA"@[0]);
            assert("B"@.len() != "NA"@.len());
            assert(""@.len() != "EU"@.len());
            assert("CN"@[0] != "EU"@[0]);
            assert("B"@.len() != "EU"@.len());
            assert("NA"@[0] != "EU"@[0]);
            assert(""@.len() != "ASIA"@.len());
            assert("CN"@.len() != "ASIA"@.len());
            assert("B"@.len() != "ASIA"@.len());
            assert("NA"@.len() != "ASIA"@.len());
            assert("EU"@.len() != "ASIA"@.len());
            assert(""@.len() != "TW"@.len());
            assert("CN"@[0] != "TW"@[0]);
            assert("B"@.len() != "TW"@.len());
            assert("NA"@[0] != "TW"@[0]);
            assert("EU"@[0] != "TW"@[0]);
            assert("ASIA"@.len() != "TW"@.len());
        }
        let s = match self {
            Region::Internal => String::from_str(""),
            Region::Celestia => String::from_str("CN"),
            Region::Irminsul => String::from_str("B"),
            Region::America => String::from_str("NA"),
            Region::Europe => String::from_str("EU"),
            Region::Asia => String::from_str("ASIA"),
            Region::TaiwanHonKongMacao => String::from_str("TW"),
        };
        Json::Text(s)
    }
}

impl ToJson for GenshinHoyo {
    open spec fn encodes_null(&self) -> bool {
        false
    }

    open spec fn encodable(&self) -> bool {
        &&& self.uid.encodable()
        &&& self.uid_public.encodable()
        &&& self.public.encodable()
        &&& self.live_public.encodable()
        &&& self.verified.encodable()
        &&& self.player_info.encodable()
        &&& self.hash.encodable()
        &&& self.region.encodable()
        &&& self.order.encodable()
        &&& self.avatar_order.encodable()
        &&& self.hoyo_type.encodable()
    }

    #[verifier::rlimit(60)]
    fn to_json(&self) -> (r: Json) {
        let mut members: Vec<(String, Json)> = Vec::new();
        members.push((String::from_str("uid"), self.uid.to_json()));
        members.push((String::from_str("uid_public"), self.uid_public.to_json()));
        members.push((String::from_str("public"), self.public.to_json()));
        members.push((String::from_str("live_public"), self.live_public.to_json()));
        members.push((String::from_str("verified"), self.verified.to_json()));
        members.push((String::from_str("player_info"), self.player_info.to_json()));
        members.push((String::from_str("hash"), self.hash.to_json()));
        members.push((String::from_str("region"), self.region.to_json()));
        members.push((String::from_str("order"), self.order.to_json()));
        members.push((String::from_str("avatar_order"), self.avatar_order.to_json()));
        members.push((String::from_str("hoyo_type"), self.hoyo_type.to_json()));
        proof {
            reveal_strlit("uid");
            assert("uid"@.len() == 3);
            reveal_strlit("uid_public");
            assert("uid_public"@.len() == 10);
            reveal_strlit("public");
            assert("public"@.len() == 6);
            reveal_strlit("live_public");
            assert("live_public"@.len() == 11);
            reveal_strlit("verified");
            assert("verified"@.len() == 8);
            reveal_strlit("player_info");
            assert("player_info"@.len() == 11);
            reveal_strlit("hash");
            assert("hash"@.len() == 4);
            reveal_strlit("region");
            assert("region"@.len() == 6);
            reveal_strlit("order");
            assert("order"@.len() == 5);
            reveal_strlit("avatar_order");
            assert("avatar_order"@.len() == 12);
            reveal_strlit("hoyo_type");
            assert("hoyo_type"@.len() == 9);
            assert("live_public"@[0] != "player_info"@[0]);
            assert("public"@[0] != "region"@[0]);
            let names = seq!["uid", "uid_public", "public", "live_public", "verified", "player_info", "hash", "region", "order", "avatar_order", "hoyo_type"];
            lemma_object_members(members@, names);
            assert(names[0] == "uid");
            assert(names[1] == "uid_public");
            assert(names[2] == "public");
            assert(names[3] == "live_public");
            assert(names[4] == "verified");
            assert(names[5] == "player_info");
            assert(names[6] == "hash");
            assert(names[7] == "region");
            assert(names[8] == "order");
            assert(names[9] == "avatar_order");
            assert(names[10] == "hoyo_type");
        }
        Json::Object(members)
    }
}

} // verus!
