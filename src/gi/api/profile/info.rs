//! The site account record.
use vstd::prelude::*;
use crate::decode::{ToJson, lemma_object_members, DecodeError, FromJson, decode_member, only_declared, strict_members};
use crate::json::{Json, field};

verus! {

/// A site account.
#[derive(Debug, PartialEq, Eq)]
pub struct Info {
    pub username: String,
    pub profile: Profile,
    pub id: u64,
}

impl FromJson for Info {
    open spec fn accepts(j: Json) -> bool {
        &&& only_declared(j, seq!["username", "profile", "id"])
        &&& <String as FromJson>::accepts(field(j, "username"@))
        &&& <Profile as FromJson>::accepts(field(j, "profile"@))
        &&& <u64 as FromJson>::accepts(field(j, "id"@))
    }

    open spec fn reads(j: Json, v: Info) -> bool {
        &&& <String as FromJson>::reads(field(j, "username"@), v.username)
        &&& <Profile as FromJson>::reads(field(j, "profile"@), v.profile)
        &&& <u64 as FromJson>::reads(field(j, "id"@), v.id)
    }

    open spec fn unknown_variant(j: Json) -> bool {
        false
    }

    open spec fn strict_names() -> Option<Seq<&'static str>> {
        Some(seq!["username", "profile", "id"])
    }

    proof fn lemma_strict_names(j: Json) {
    }

    fn from_json(j: &Json) -> (r: Result<Info, DecodeError>) {
        let names = ["username", "profile", "id"];
        assert(names@ =~= seq!["username", "profile", "id"]);
        let members = strict_members(j, &names)?;
        let username = decode_member::<String>(members, "username")?;
        let profile = decode_member::<Profile>(members, "profile")?;
        let id = decode_member::<u64>(members, "id")?;
        Ok(Info { username, profile, id })
    }
}
/// The public part of a site account.
#[derive(Debug, PartialEq, Eq)]
pub struct Profile {
    pub bio: String,
    pub level: i64,
    pub signup_state: Option<u8>,
    pub avatar: Option<String>,
    pub image_url: Option<String>,
}

impl FromJson for Profile {
    open spec fn accepts(j: Json) -> bool {
        &&& only_declared(j, seq!["bio", "level", "signup_state", "avatar", "image_url"])
        &&& <String as FromJson>::accepts(field(j, "bio"@))
        &&& <i64 as FromJson>::accepts(field(j, "level"@))
        &&& <Option<u8> as FromJson>::accepts(field(j, "signup_state"@))
        &&& <Option<String> as FromJson>::accepts(field(j, "avatar"@))
        &&& <Option<String> as FromJson>::accepts(field(j, "image_url"@))
    }

    open spec fn reads(j: Json, v: Profile) -> bool {
        &&& <String as FromJson>::reads(field(j, "bio"@), v.bio)
        &&& <i64 as FromJson>::reads(field(j, "level"@), v.level)
        &&& <Option<u8> as FromJson>::reads(field(j, "signup_state"@), v.signup_state)
        &&& <Option<String> as FromJson>::reads(field(j, "avatar"@), v.avatar)
        &&& <Option<String> as FromJson>::reads(field(j, "image_url"@), v.image_url)
    }

    open spec fn unknown_variant(j: Json) -> bool {
        false
    }

    open spec fn strict_names() -> Option<Seq<&'static str>> {
        Some(seq!["bio", "level", "signup_state", "avatar", "image_url"])
    }

    proof fn lemma_strict_names(j: Json) {
    }

    fn from_json(j: &Json) -> (r: Result<Profile, DecodeError>) {
        let names = ["bio", "level", "signup_state", "avatar", "image_url"];
        assert(names@ =~= seq!["bio", "level", "signup_state", "avatar", "image_url"]);
        let members = strict_members(j, &names)?;
        let bio = decode_member::<String>(members, "bio")?;
        let level = decode_member::<i64>(members, "level")?;
        let signup_state = decode_member::<Option<u8>>(members, "signup_state")?;
        let avatar = decode_member::<Option<String>>(members, "avatar")?;
        let image_url = decode_member::<Option<String>>(members, "image_url")?;
        Ok(Profile { bio, level, signup_state, avatar, image_url })
    }
}

impl ToJson for Info {
    open spec fn encodes_null(&self) -> bool {
        false
    }

    open spec fn encodable(&self) -> bool {
        &&& self.username.encodable()
        &&& self.profile.encodable()
        &&& self.id.encodable()
    }

    fn to_json(&self) -> (r: Json) {
        let mut members: Vec<(String, Json)> = Vec::new();
        members.push((String::from_str("username"), self.username.to_json()));
        members.push((String::from_str("profile"), self.profile.to_json()));
        members.push((String::from_str("id"), self.id.to_json()));
        proof {
            reveal_strlit("username");
            assert("username"@.len() == 8);
            reveal_strlit("profile");
            assert("profile"@.len() == 7);
            reveal_strlit("id");
            assert("id"@.len() == 2);
            let names = seq!["username", "profile", "id"];
            lemma_object_members(members@, names);
            assert(names[0] == "username");
            assert(names[1] == "profile");
            assert(names[2] == "id");
        }
        Json::Object(members)
    }
}

impl ToJson for Profile {
    open spec fn encodes_null(&self) -> bool {
        false
    }

    open spec fn encodable(&self) -> bool {
        &&& self.bio.encodable()
        &&& self.level.encodable()
        &&& self.signup_state.encodable()
        &&& self.avatar.encodable()
        &&& self.image_url.encodable()
    }

    fn to_json(&self) -> (r: Json) {
        let mut members: Vec<(String, Json)> = Vec::new();
        members.push((String::from_str("bio"), self.bio.to_json()));
        members.push((String::from_str("level"), self.level.to_json()));
        members.push((String::from_str("signup_state"), self.signup_state.to_json()));
        members.push((String::from_str("avatar"), self.avatar.to_json()));
        members.push((String::from_str("image_url"), self.image_url.to_json()));
        proof {
            reveal_strlit("bio");
            assert("bio"@.len() == 3);
            reveal_strlit("level");
            assert("level"@.len() == 5);
            reveal_strlit("signup_state");
            assert("signup_state"@.len() == 12);
            reveal_strlit("avatar");
            assert("avatar"@.len() == 6);
            reveal_strlit("image_url");
            assert("image_url"@.len() == 9);
            let names = seq!["bio", "level", "signup_state", "avatar", "image_url"];
            lemma_object_members(members@, names);
            assert(names[0] == "bio");
            assert(names[1] == "level");
            assert(names[2] == "signup_state");
            assert(names[3] == "avatar");
            assert(names[4] == "image_url");
        }
        Json::Object(members)
    }
}

} // verus!
