//! The record of a player, looked up by game uid.
use vstd::prelude::*;
use crate::decode::{lemma_object_members, ToJson, DecodeError, FromJson, decode_member, only_declared, strict_members};
use crate::json::{Json, field};
use crate::gi::api::AvatarInfo;
use crate::gi::api::player::info::Info;

pub mod info;

verus! {

/// The full player record: the player's summary and, when the player shows
/// them, the characters with their builds. Any other member is rejected.
#[derive(Debug, PartialEq, Eq)]
pub struct Response {
    pub avatar_info_list: Option<Vec<AvatarInfo>>,
    pub info: Info,
}

impl FromJson for Response {
    open spec fn accepts(j: Json) -> bool {
        &&& only_declared(j, seq!["avatarInfoList", "playerInfo", "ttl", "uid", "owner"])
        &&& <Option<Vec<AvatarInfo>> as FromJson>::accepts(field(j, "avatarInfoList"@))
        &&& Info::accepts_within(j)
    }

    open spec fn reads(j: Json, v: Response) -> bool {
        &&& <Option<Vec<AvatarInfo>> as FromJson>::reads(field(j, "avatarInfoList"@), v.avatar_info_list)
        &&& Info::reads(j, v.info)
    }

    open spec fn unknown_variant(j: Json) -> bool {
        false
    }

    open spec fn strict_names() -> Option<Seq<&'static str>> {
        Some(seq!["avatarInfoList", "playerInfo", "ttl", "uid", "owner"])
    }

    proof fn lemma_strict_names(j: Json) {
    }

    fn from_json(j: &Json) -> (r: Result<Response, DecodeError>) {
        let names = ["avatarInfoList", "playerInfo", "ttl", "uid", "owner"];
        assert(names@ =~= seq!["avatarInfoList", "playerInfo", "ttl", "uid", "owner"]);
        let members = strict_members(j, &names)?;
        let avatar_info_list = decode_member::<Option<Vec<AvatarInfo>>>(members, "avatarInfoList")?;
        let info = Info::from_members(members)?;
        Ok(Response { avatar_info_list, info })
    }
}

impl ToJson for Response {
    open spec fn encodes_null(&self) -> bool {
        false
    }

    open spec fn encodable(&self) -> bool {
        &&& self.avatar_info_list.encodable()
        &&& self.info.player_info.encodable()
        &&& self.info.ttl.encodable()
        &&& self.info.uid.encodable()
        &&& self.info.owner.encodable()
    }

    fn to_json(&self) -> (r: Json) {
        let mut members: Vec<(String, Json)> = Vec::new();
        members.push((String::from_str("avatarInfoList"), self.avatar_info_list.to_json()));
        members.push((String::from_str("playerInfo"), self.info.player_info.to_json()));
        members.push((String::from_str("ttl"), self.info.ttl.to_json()));
        members.push((String::from_str("uid"), self.info.uid.to_json()));
        members.push((String::from_str("owner"), self.info.owner.to_json()));
        proof {
            reveal_strlit("avatarInfoList");
            assert("avatarInfoList"@.len() == 14);
            reveal_strlit("playerInfo");
            assert("playerInfo"@.len() == 10);
            reveal_strlit("ttl");
            assert("ttl"@.len() == 3);
            reveal_strlit("uid");
            assert("uid"@.len() == 3);
            reveal_strlit("owner");
            assert("owner"@.len() == 5);
            assert("ttl"@[0] != "uid"@[0]);
            let names = seq!["avatarInfoList", "playerInfo", "ttl", "uid", "owner"];
            lemma_object_members(members@, names);
            assert(names[0] == "avatarInfoList");
            assert(names[1] == "playerInfo");
            assert(names[2] == "ttl");
            assert(names[3] == "uid");
            assert(names[4] == "owner");
        }
        Json::Object(members)
    }
}

} // verus!
