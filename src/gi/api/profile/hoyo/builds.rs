//! Saved character builds.
use vstd::prelude::*;
use crate::decode::{lemma_object_members, ToJson, DecodeError, FromJson, decode_member, only_declared, strict_members};
use crate::json::{Json, JsonNumber, field};
use crate::gi::api::AvatarInfo;
use crate::gi::api::profile::hoyo::HoyoHash;

verus! {

/// A named, shareable snapshot of one character's equipment and stats.
#[derive(Debug, PartialEq, Eq)]
pub struct Build {
    pub id: u64,
    pub name: String,
    pub avatar_id: String,
    pub avatar_data: AvatarInfo,
    pub order: u64,
    pub live: bool,
    pub settings: Settings,
    pub public: bool,
    pub image: Option<String>,
    pub hoyo_type: u8,
    pub hoyo: HoyoHash,
}

impl FromJson for Build {
    open spec fn accepts(j: Json) -> bool {
        &&& only_declared(j, seq!["id", "name", "avatar_id", "avatar_data", "order", "live", "settings", "public", "image", "hoyo_type", "hoyo"])
        &&& <u64 as FromJson>::accepts(field(j, "id"@))
        &&& <String as FromJson>::accepts(field(j, "name"@))
        &&& <String as FromJson>::accepts(field(j, "avatar_id"@))
        &&& <AvatarInfo as FromJson>::accepts(field(j, "avatar_data"@))
        &&& <u64 as FromJson>::accepts(field(j, "order"@))
        &&& <bool as FromJson>::accepts(field(j, "live"@))
        &&& <Settings as FromJson>::accepts(field(j, "settings"@))
        &&& <bool as FromJson>::accepts(field(j, "public"@))
        &&& <Option<String> as FromJson>::accepts(field(j, "image"@))
        &&& <u8 as FromJson>::accepts(field(j, "hoyo_type"@))
        &&& <HoyoHash as FromJson>::accepts(field(j, "hoyo"@))
    }

    open spec fn reads(j: Json, v: Build) -> bool {
        &&& <u64 as FromJson>::reads(field(j, "id"@), v.id)
        &&& <String as FromJson>::reads(field(j, "name"@), v.name)
        &&& <String as FromJson>::reads(field(j, "avatar_id"@), v.avatar_id)
        &&& <AvatarInfo as FromJson>::reads(field(j, "avatar_data"@), v.avatar_data)
        &&& <u64 as FromJson>::reads(field(j, "order"@), v.order)
        &&& <bool as FromJson>::reads(field(j, "live"@), v.live)
        &&& <Settings as FromJson>::reads(field(j, "settings"@), v.settings)
        &&& <bool as FromJson>::reads(field(j, "public"@), v.public)
        &&& <Option<String> as FromJson>::reads(field(j, "image"@), v.image)
        &&& <u8 as FromJson>::reads(field(j, "hoyo_type"@), v.hoyo_type)
        &&& <HoyoHash as FromJson>::reads(field(j, "hoyo"@), v.hoyo)
    }

    open spec fn unknown_variant(j: Json) -> bool {
        false
    }

    open spec fn strict_names() -> Option<Seq<&'static str>> {
        Some(seq!["id", "name", "avatar_id", "avatar_data", "order", "live", "settings", "public", "image", "hoyo_type", "hoyo"])
    }

    proof fn lemma_strict_names(j: Json) {
    }

    fn from_json(j: &Json) -> (r: Result<Build, DecodeError>) {
        let names = ["id", "name", "avatar_id", "avatar_data", "order", "live", "settings", "public", "image", "hoyo_type", "hoyo"];
        assert(names@ =~= seq!["id", "name", "avatar_id", "avatar_data", "order", "live", "settings", "public", "image", "hoyo_type", "hoyo"]);
        let members = strict_members(j, &names)?;
        let id = decode_member::<u64>(members, "id")?;
        let name = decode_member::<String>(members, "name")?;
        let avatar_id = decode_member::<String>(members, "avatar_id")?;
        let avatar_data = decode_member::<AvatarInfo>(members, "avatar_data")?;
        let order = decode_member::<u64>(members, "order")?;
        let live = decode_member::<bool>(members, "live")?;
        let settings = decode_member::<Settings>(members, "settings")?;
        let public = decode_member::<bool>(members, "public")?;
        let image = decode_member::<Option<String>>(members, "image")?;
        let hoyo_type = decode_member::<u8>(members, "hoyo_type")?;
        let hoyo = decode_member::<HoyoHash>(members, "hoyo")?;
        Ok(Build { id, name, avatar_id, avatar_data, order, live, settings, public, image, hoyo_type, hoyo })
    }
}
/// How a build's card is shown; `transform` is kept as it came.
#[derive(Debug, PartialEq, Eq)]
pub struct Settings {
    pub adaptive_color: Option<bool>,
    pub art_source: Option<String>,
    pub caption: Option<String>,
    pub honkard_width: Option<JsonNumber>,
    pub transform: Option<Json>,
}

impl FromJson for Settings {
    open spec fn accepts(j: Json) -> bool {
        &&& only_declared(j, seq!["adaptiveColor", "artSource", "caption", "honkardWidth", "transform"])
        &&& <Option<bool> as FromJson>::accepts(field(j, "adaptiveColor"@))
        &&& <Option<String> as FromJson>::accepts(field(j, "artSource"@))
        &&& <Option<String> as FromJson>::accepts(field(j, "caption"@))
        &&& <Option<JsonNumber> as FromJson>::accepts(field(j, "honkardWidth"@))
        &&& <Option<Json> as FromJson>::accepts(field(j, "transform"@))
    }

    open spec fn reads(j: Json, v: Settings) -> bool {
        &&& <Option<bool> as FromJson>::reads(field(j, "adaptiveColor"@), v.adaptive_color)
        &&& <Option<String> as FromJson>::reads(field(j, "artSource"@), v.art_source)
        &&& <Option<String> as FromJson>::reads(field(j, "caption"@), v.caption)
        &&& <Option<JsonNumber> as FromJson>::reads(field(j, "honkardWidth"@), v.honkard_width)
        &&& <Option<Json> as FromJson>::reads(field(j, "transform"@), v.transform)
    }

    open spec fn unknown_variant(j: Json) -> bool {
        false
    }

    open spec fn strict_names() -> Option<Seq<&'static str>> {
        Some(seq!["adaptiveColor", "artSource", "caption", "honkardWidth", "transform"])
    }

    proof fn lemma_strict_names(j: Json) {
    }

    fn from_json(j: &Json) -> (r: Result<Settings, DecodeError>) {
        let names = ["adaptiveColor", "artSource", "caption", "honkardWidth", "transform"];
        assert(names@ =~= seq!["adaptiveColor", "artSource", "caption", "honkardWidth", "transform"]);
        let members = strict_members(j, &names)?;
        let adaptive_color = decode_member::<Option<bool>>(members, "adaptiveColor")?;
        let art_source = decode_member::<Option<String>>(members, "artSource")?;
        let caption = decode_member::<Option<String>>(members, "caption")?;
        let honkard_width = decode_member::<Option<JsonNumber>>(members, "honkardWidth")?;
        let transform = decode_member::<Option<Json>>(members, "transform")?;
        Ok(Settings { adaptive_color, art_source, caption, honkard_width, transform })
    }
}

impl ToJson for Build {
    open spec fn encodes_null(&self) -> bool {
        false
    }

    open spec fn encodable(&self) -> bool {
        &&& self.id.encodable()
        &&& self.name.encodable()
        &&& self.avatar_id.encodable()
        &&& self.avatar_data.encodable()
        &&& self.order.encodable()
        &&& self.live.encodable()
        &&& self.settings.encodable()
        &&& self.public.encodable()
        &&& self.image.encodable()
        &&& self.hoyo_type.encodable()
        &&& self.hoyo.encodable()
    }

    #[verifier::rlimit(60)]
    fn to_json(&self) -> (r: Json) {
        let mut members: Vec<(String, Json)> = Vec::new();
        members.push((String::from_str("id"), self.id.to_json()));
        members.push((String::from_str("name"), self.name.to_json()));
        members.push((String::from_str("avatar_id"), self.avatar_id.to_json()));
        members.push((String::from_str("avatar_data"), self.avatar_data.to_json()));
        members.push((String::from_str("order"), self.order.to_json()));
        members.push((String::from_str("live"), self.live.to_json()));
        members.push((String::from_str("settings"), self.settings.to_json()));
        members.push((String::from_str("public"), self.public.to_json()));
        members.push((String::from_str("image"), self.image.to_json()));
        members.push((String::from_str("hoyo_type"), self.hoyo_type.to_json()));
        members.push((String::from_str("hoyo"), self.hoyo.to_json()));
        proof {
            reveal_strlit("id");
            assert("id"@.len() == 2);
            reveal_strlit("name");
            assert("name"@.len() == 4);
            reveal_strlit("avatar_id");
            assert("avatar_id"@.len() == 9);
            reveal_strlit("avatar_data");
            assert("avatar_data"@.len() == 11);
            reveal_strlit("order");
            assert("order"@.len() == 5);
            reveal_strlit("live");
            assert("live"@.len() == 4);
            reveal_strlit("settings");
            assert("settings"@.len() == 8);
            reveal_strlit("public");
            assert("public"@.len() == 6);
            reveal_strlit("image");
            assert("image"@.len() == 5);
            reveal_strlit("hoyo_type");
            assert("hoyo_type"@.len() == 9);
            reveal_strlit("hoyo");
            assert("hoyo"@.len() == 4);
            assert("name"@[0] != "live"@[0]);
            assert("order"@[0] != "image"@[0]);
            assert("avatar_id"@[0] != "hoyo_type"@[0]);
            assert("name"@[0] != "hoyo"@[0]);
            assert("live"@[0] != "hoyo"@[0]);
            let names = seq!["id", "name", "avatar_id", "avatar_data", "order", "live", "settings", "public", "image", "hoyo_type", "hoyo"];
            lemma_object_members(members@, names);
            assert(names[0] == "id");
            assert(names[1] == "name");
            assert(names[2] == "avatar_id");
            assert(names[3] == "avatar_data");
            assert(names[4] == "order");
            assert(names[5] == "live");
            assert(names[6] == "settings");
            assert(names[7] == "public");
            assert(names[8] == "image");
            assert(names[9] == "hoyo_type");
            assert(names[10] == "hoyo");
        }
        Json::Object(members)
    }
}

impl ToJson for Settings {
    open spec fn encodes_null(&self) -> bool {
        false
    }

    open spec fn encodable(&self) -> bool {
        &&& self.adaptive_color.encodable()
        &&& self.art_source.encodable()
        &&& self.caption.encodable()
        &&& self.honkard_width.encodable()
        &&& self.transform.encodable()
    }

    fn to_json(&self) -> (r: Json) {
        let mut members: Vec<(String, Json)> = Vec::new();
        members.push((String::from_str("adaptiveColor"), self.adaptive_color.to_json()));
        members.push((String::from_str("artSource"), self.art_source.to_json()));
        members.push((String::from_str("caption"), self.caption.to_json()));
        members.push((String::from_str("honkardWidth"), self.honkard_width.to_json()));
        members.push((String::from_str("transform"), self.transform.to_json()));
        proof {
            reveal_strlit("adaptiveColor");
            assert("adaptiveColor"@.len() == 13);
            reveal_strlit("artSource");
            assert("artSource"@.len() == 9);
            reveal_strlit("caption");
            assert("caption"@.len() == 7);
            reveal_strlit("honkardWidth");
            assert("honkardWidth"@.len() == 12);
            reveal_strlit("transform");
            assert("transform"@.len() == 9);
            assert("artSource"@[0] != "transform"@[0]);
            let names = seq!["adaptiveColor", "artSource", "caption", "honkardWidth", "transform"];
            lemma_object_members(members@, names);
            assert(names[0] == "adaptiveColor");
            assert(names[1] == "artSource");
            assert(names[2] == "caption");
            assert(names[3] == "honkardWidth");
            assert(names[4] == "transform");
        }
        Json::Object(members)
    }
}

} // verus!
