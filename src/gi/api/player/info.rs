//! A player's summary record.
use vstd::prelude::*;
use crate::decode::{lemma_object_members, ToJson, declared, DecodeError, FromJson, decode_member, only_declared, strict_members};
use crate::json::{Json, field};
use crate::gi::api::PlayerInfo;
use crate::gi::api::profile::hoyo::HoyoHash;
use crate::gi::api::profile::info::Profile;

verus! {

/// A player's summary, with the site account that claimed it, if any.
#[derive(Debug, PartialEq, Eq)]
pub struct Info {
    pub player_info: PlayerInfo,
    pub ttl: u64,
    pub uid: String,
    pub owner: Option<Owner>,
}

impl FromJson for Info {
    open spec fn accepts(j: Json) -> bool {
        &&& only_declared(j, seq!["playerInfo", "ttl", "uid", "owner"])
        &&& <PlayerInfo as FromJson>::accepts(field(j, "playerInfo"@))
        &&& <u64 as FromJson>::accepts(field(j, "ttl"@))
        &&& <String as FromJson>::accepts(field(j, "uid"@))
        &&& <Option<Owner> as FromJson>::accepts(field(j, "owner"@))
    }

    open spec fn reads(j: Json, v: Info) -> bool {
        &&& <PlayerInfo as FromJson>::reads(field(j, "playerInfo"@), v.player_info)
        &&& <u64 as FromJson>::reads(field(j, "ttl"@), v.ttl)
        &&& <String as FromJson>::reads(field(j, "uid"@), v.uid)
        &&& <Option<Owner> as FromJson>::reads(field(j, "owner"@), v.owner)
    }

    open spec fn unknown_variant(j: Json) -> bool {
        false
    }

    open spec fn strict_names() -> Option<Seq<&'static str>> {
        Some(seq!["playerInfo", "ttl", "uid", "owner"])
    }

    proof fn lemma_strict_names(j: Json) {
    }

    fn from_json(j: &Json) -> (r: Result<Info, DecodeError>) {
        let names = ["playerInfo", "ttl", "uid", "owner"];
        assert(names@ =~= seq!["playerInfo", "ttl", "uid", "owner"]);
        let members = strict_members(j, &names)?;
        let player_info = decode_member::<PlayerInfo>(members, "playerInfo")?;
        let ttl = decode_member::<u64>(members, "ttl")?;
        let uid = decode_member::<String>(members, "uid")?;
        let owner = decode_member::<Option<Owner>>(members, "owner")?;
        Ok(Info { player_info, ttl, uid, owner })
    }
}

/// A summary record with a member that the shape does not declare is rejected,
/// not decoded with the member dropped.
pub proof fn lemma_info_rejects_unknown_member(j: Json, i: int)
    requires
        j is Object,
        0 <= i < j->Object_0@.len(),
        j->Object_0@[i].0@ != "playerInfo"@,
        j->Object_0@[i].0@ != "ttl"@,
        j->Object_0@[i].0@ != "uid"@,
        j->Object_0@[i].0@ != "owner"@,
    ensures
        !Info::accepts(j),
{
    let names = seq!["playerInfo", "ttl", "uid", "owner"];
    assert(!declared(names, j->Object_0@[i].0@));
}

impl Info {
    /// The members of an object that an `Info` reads, when other members are ignored.
    pub open spec fn accepts_within(j: Json) -> bool {
        &&& <PlayerInfo as FromJson>::accepts(field(j, "playerInfo"@))
        &&& <u64 as FromJson>::accepts(field(j, "ttl"@))
        &&& <String as FromJson>::accepts(field(j, "uid"@))
        &&& <Option<Owner> as FromJson>::accepts(field(j, "owner"@))
    }

    /// Reads an `Info` from the members of an object that has other members too.
    pub fn from_members(members: &Vec<(String, Json)>) -> (r: Result<Info, DecodeError>)
        ensures
            r is Ok <==> Info::accepts_within(Json::Object(*members)),
            r matches Ok(v) ==> Info::reads(Json::Object(*members), v),
    {
        let player_info = decode_member::<PlayerInfo>(members, "playerInfo")?;
        let ttl = decode_member::<u64>(members, "ttl")?;
        let uid = decode_member::<String>(members, "uid")?;
        let owner = decode_member::<Option<Owner>>(members, "owner")?;
        Ok(Info { player_info, ttl, uid, owner })
    }
}

/// The site account that claimed a player: its `hash` beside the account's own
/// members. Any other member is rejected.
#[derive(Debug, PartialEq, Eq)]
pub struct Owner {
    pub hash: HoyoHash,
    pub info: crate::gi::api::profile::info::Info,
}

impl FromJson for Owner {
    open spec fn accepts(j: Json) -> bool {
        &&& only_declared(j, seq!["hash", "username", "profile", "id"])
        &&& <HoyoHash as FromJson>::accepts(field(j, "hash"@))
        &&& <String as FromJson>::accepts(field(j, "username"@))
        &&& <Profile as FromJson>::accepts(field(j, "profile"@))
        &&& <u64 as FromJson>::accepts(field(j, "id"@))
    }

    open spec fn reads(j: Json, v: Owner) -> bool {
        &&& <HoyoHash as FromJson>::reads(field(j, "hash"@), v.hash)
        &&& <String as FromJson>::reads(field(j, "username"@), v.info.username)
        &&& <Profile as FromJson>::reads(field(j, "profile"@), v.info.profile)
        &&& <u64 as FromJson>::reads(field(j, "id"@), v.info.id)
    }

    open spec fn unknown_variant(j: Json) -> bool {
        false
    }

    open spec fn strict_names() -> Option<Seq<&'static str>> {
        Some(seq!["hash", "username", "profile", "id"])
    }

    proof fn lemma_strict_names(j: Json) {
    }

    fn from_json(j: &Json) -> (r: Result<Owner, DecodeError>) {
        let names = ["hash", "username", "profile", "id"];
        assert(names@ =~= seq!["hash", "username", "profile", "id"]);
        let members = strict_members(j, &names)?;
        let hash = decode_member::<HoyoHash>(members, "hash")?;
        let username = decode_member::<String>(members, "username")?;
        let profile = decode_member::<Profile>(members, "profile")?;
        let id = decode_member::<u64>(members, "id")?;
        Ok(Owner { hash, info: crate::gi::api::profile::info::Info { username, profile, id } })
    }
}

impl ToJson for Info {
    open spec fn encodes_null(&self) -> bool {
        false
    }

    open spec fn encodable(&self) -> bool {
        &&& self.player_info.encodable()
        &&& self.ttl.encodable()
        &&& self.uid.encodable()
        &&& self.owner.encodable()
    }

    fn to_json(&self) -> (r: Json) {
        let mut members: Vec<(String, Json)> = Vec::new();
        members.push((String::from_str("playerInfo"), self.player_info.to_json()));
        members.push((String::from_str("ttl"), self.ttl.to_json()));
        members.push((String::from_str("uid"), self.uid.to_json()));
        members.push((String::from_str("owner"), self.owner.to_json()));
        proof {
            reveal_strlit("playerInfo");
            assert("playerInfo"@.len() == 10);
            reveal_strlit("ttl");
            assert("ttl"@.len() == 3);
            reveal_strlit("uid");
            assert("uid"@.len() == 3);
            reveal_strlit("owner");
            assert("owner"@.len() == 5);
            assert("ttl"@[0] != "uid"@[0]);
            let names = seq!["playerInfo", "ttl", "uid", "owner"];
            lemma_object_members(members@, names);
            assert(names[0] == "playerInfo");
            assert(names[1] == "ttl");
            assert(names[2] == "uid");
            assert(names[3] == "owner");
        }
        Json::Object(members)
    }
}

impl ToJson for Owner {
    open spec fn encodes_null(&self) -> bool {
        false
    }

    open spec fn encodable(&self) -> bool {
        &&& self.hash.encodable()
        &&& self.info.username.encodable()
        &&& self.info.profile.encodable()
        &&& self.info.id.encodable()
    }

    fn to_json(&self) -> (r: Json) {
        let mut members: Vec<(String, Json)> = Vec::new();
        members.push((String::from_str("hash"), self.hash.to_json()));
        members.push((String::from_str("username"), self.info.username.to_json()));
        members.push((String::from_str("profile"), self.info.profile.to_json()));
        members.push((String::from_str("id"), self.info.id.to_json()));
        proof {
            reveal_strlit("hash");
            assert("hash"@.len() == 4);
            reveal_strlit("username");
            assert("username"@.len() == 8);
            reveal_strlit("profile");
            assert("profile"@.len() == 7);
            reveal_strlit("id");
            assert("id"@.len() == 2);
            let names = seq!["hash", "username", "profile", "id"];
            lemma_object_members(members@, names);
            assert(names[0] == "hash");
            assert(names[1] == "username");
            assert(names[2] == "profile");
            assert(names[3] == "id");
        }
        Json::Object(members)
    }
}

} // verus!
