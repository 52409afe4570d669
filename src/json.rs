//! A JSON document held as plain values.
use vstd::prelude::*;

verus! {

broadcast use vstd::std_specs::vec::axiom_vec_index_decreases;

/// A JSON number as the parser classified it.
#[derive(Debug, PartialEq, Eq)]
pub enum JsonNumber {
    /// A non-negative integer that fits in `u64`.
    PosInt(u64),
    /// A negative integer that fits in `i64`.
    NegInt(i64),
    /// Any other number, in its shortest decimal text.
    Float(String),
}

/// A JSON value. An object keeps its members in the order the parser gives them.
#[derive(Debug, PartialEq, Eq)]
pub enum Json {
    Null,
    Bool(bool),
    Number(JsonNumber),
    Text(String),
    Array(Vec<Json>),
    Object(Vec<(String, Json)>),
}

/// The value of the first member named `name`, or `Null` when there is none.
pub open spec fn lookup(members: Seq<(String, Json)>, name: Seq<char>) -> Json
    decreases members.len(),
{
    if members.len() == 0 {
        Json::Null
    } else if members[0].0@ == name {
        members[0].1
    } else {
        lookup(members.drop_first(), name)
    }
}

/// When member `i` is the first named `name`, it is the one `lookup` finds.
pub proof fn lemma_lookup_at(members: Seq<(String, Json)>, i: int, name: Seq<char>)
    requires
        0 <= i < members.len(),
        members[i].0@ == name,
        forall|k: int| 0 <= k < i ==> (#[trigger] members[k]).0@ != name,
    ensures
        lookup(members, name) == members[i].1,
    decreases i,
{
    if i > 0 {
        assert(members.drop_first()[i - 1] == members[i]);
        assert forall|k: int| 0 <= k < i - 1 implies (#[trigger] members.drop_first()[k]).0@ != name by {
            assert(members.drop_first()[k] == members[k + 1]);
        }
        lemma_lookup_at(members.drop_first(), i - 1, name);
    }
}

/// The member `name` of an object; `Null` for a missing member or a non-object.
pub open spec fn field(j: Json, name: Seq<char>) -> Json {
    match j {
        Json::Object(members) => lookup(members@, name),
        _ => Json::Null,
    }
}

/// Two values with the same structure and the same contents.
pub open spec fn same_json(a: Json, b: Json) -> bool
    decreases a,
{
    match (a, b) {
        (Json::Null, Json::Null) => true,
        (Json::Bool(x), Json::Bool(y)) => x == y,
        (Json::Number(x), Json::Number(y)) => same_number(x, y),
        (Json::Text(x), Json::Text(y)) => x@ == y@,
        (Json::Array(x), Json::Array(y)) => {
            &&& x@.len() == y@.len()
            &&& forall|i: int| 0 <= i < x@.len() ==> same_json(#[trigger] x@[i], y@[i])
        },
        (Json::Object(x), Json::Object(y)) => {
            &&& x@.len() == y@.len()
            &&& forall|i: int|
                0 <= i < x@.len() ==> (#[trigger] x@[i]).0@ == y@[i].0@ && same_json(x@[i].1, y@[i].1)
        },
        _ => false,
    }
}

pub open spec fn same_number(a: JsonNumber, b: JsonNumber) -> bool {
    match (a, b) {
        (JsonNumber::PosInt(x), JsonNumber::PosInt(y)) => x == y,
        (JsonNumber::NegInt(x), JsonNumber::NegInt(y)) => x == y,
        (JsonNumber::Float(x), JsonNumber::Float(y)) => x@ == y@,
        _ => false,
    }
}

/// `same_json` does not depend on the order of its arguments.
pub proof fn lemma_same_json_symmetric(a: Json, b: Json)
    requires
        same_json(a, b),
    ensures
        same_json(b, a),
    decreases a,
{
    match (a, b) {
        (Json::Array(x), Json::Array(y)) => {
            assert forall|i: int| 0 <= i < y@.len() implies same_json(#[trigger] y@[i], x@[i]) by {
                assert(decreases_to!(a => a->Array_0));
                assert(decreases_to!(x => x[i]));
                lemma_same_json_symmetric(x@[i], y@[i]);
            }
        },
        (Json::Object(x), Json::Object(y)) => {
            assert forall|i: int|
                0 <= i < y@.len() implies (#[trigger] y@[i]).0@ == x@[i].0@ && same_json(
                y@[i].1,
                x@[i].1,
            ) by {
                assert(decreases_to!(a => a->Object_0));
                assert(decreases_to!(x => x[i]));
                assert(decreases_to!(x[i] => x[i].1));
                lemma_same_json_symmetric(x@[i].1, y@[i].1);
            }
        },
        _ => {},
    }
}

/// Objects with the same members find the same member under each name.
pub proof fn lemma_same_lookup(x: Seq<(String, Json)>, y: Seq<(String, Json)>, name: Seq<char>)
    requires
        x.len() == y.len(),
        forall|i: int|
            0 <= i < x.len() ==> (#[trigger] x[i]).0@ == y[i].0@ && same_json(x[i].1, y[i].1),
    ensures
        same_json(lookup(x, name), lookup(y, name)),
    decreases x.len(),
{
    if x.len() > 0 && x[0].0@ != name {
        assert forall|i: int|
            0 <= i < x.drop_first().len() implies (#[trigger] x.drop_first()[i]).0@
            == y.drop_first()[i].0@ && same_json(x.drop_first()[i].1, y.drop_first()[i].1) by {
            assert(x.drop_first()[i] == x[i + 1]);
            assert(y.drop_first()[i] == y[i + 1]);
        }
        lemma_same_lookup(x.drop_first(), y.drop_first(), name);
    }
}

/// Equal values have the same member under each name.
pub proof fn lemma_same_field(a: Json, b: Json, name: Seq<char>)
    requires
        same_json(a, b),
    ensures
        same_json(field(a, name), field(b, name)),
{
    match (a, b) {
        (Json::Object(x), Json::Object(y)) => {
            lemma_same_lookup(x@, y@, name);
        },
        _ => {},
    }
}

impl JsonNumber {
    pub fn copy(&self) -> (r: JsonNumber)
        ensures
            same_number(r, *self),
    {
        match self {
            JsonNumber::PosInt(n) => JsonNumber::PosInt(*n),
            JsonNumber::NegInt(n) => JsonNumber::NegInt(*n),
            JsonNumber::Float(s) => JsonNumber::Float(s.clone()),
        }
    }
}

impl Json {
    /// A deep copy.
    pub fn copy(&self) -> (r: Json)
        ensures
            same_json(r, *self),
        decreases self,
    {
        match self {
            Json::Null => Json::Null,
            Json::Bool(b) => Json::Bool(*b),
            Json::Number(n) => Json::Number(n.copy()),
            Json::Text(s) => Json::Text(s.clone()),
            Json::Array(items) => {
                let mut out: Vec<Json> = Vec::new();
                let mut i: usize = 0;
                while i < items.len()
                    invariant
                        *self == Json::Array(*items),
                        i <= items@.len(),
                        out@.len() == i,
                        forall|k: int| 0 <= k < i ==> same_json(#[trigger] out@[k], items@[k]),
                    decreases items@.len() - i,
                {
                    proof {
                        assert(decreases_to!(*self => self->Array_0));
                        assert(decreases_to!(*items => items[i as int]));
                    }
                    out.push(items[i].copy());
                    i = i + 1;
                }
                Json::Array(out)
            },
            Json::Object(members) => {
                let mut out: Vec<(String, Json)> = Vec::new();
                let mut i: usize = 0;
                while i < members.len()
                    invariant
                        *self == Json::Object(*members),
                        i <= members@.len(),
                        out@.len() == i,
                        forall|k: int|
                            0 <= k < i ==> (#[trigger] out@[k]).0@ == members@[k].0@ && same_json(
                                out@[k].1,
                                members@[k].1,
                            ),
                    decreases members@.len() - i,
                {
                    proof {
                        assert(decreases_to!(*self => self->Object_0));
                        assert(decreases_to!(*members => members[i as int]));
                        assert(decreases_to!(members[i as int] => members[i as int].1));
                    }
                    let name = members[i].0.clone();
                    let value = members[i].1.copy();
                    out.push((name, value));
                    i = i + 1;
                }
                Json::Object(out)
            },
        }
    }
}

/// The first member named `name`, if any.
pub fn member<'a>(members: &'a Vec<(String, Json)>, name: &str) -> (r: Option<&'a Json>)
    ensures
        r matches Some(x) ==> *x == lookup(members@, name@),
        r is None ==> lookup(members@, name@) == Json::Null,
{
    let key = String::from_str(name);
    let mut i: usize = 0;
    assert(members@.subrange(0, members@.len() as int) =~= members@);
    while i < members.len()
        invariant
            i <= members@.len(),
            key@ == name@,
            lookup(members@, name@) == lookup(members@.subrange(i as int, members@.len() as int), name@),
        decreases members@.len() - i,
    {
        proof {
            let rest = members@.subrange(i as int, members@.len() as int);
            assert(rest.drop_first() =~= members@.subrange(i + 1, members@.len() as int));
        }
        if members[i].0 == key {
            return Some(&members[i].1);
        }
        i = i + 1;
    }
    None
}

/// The member `name` of `j`, if `j` is an object that has one.
pub fn field_ref<'a>(j: &'a Json, name: &str) -> (r: Option<&'a Json>)
    ensures
        r matches Some(x) ==> *x == field(*j, name@),
        r is None ==> field(*j, name@) == Json::Null,
{
    match j {
        Json::Object(members) => member(members, name),
        _ => None,
    }
}

#[verifier::external_type_specification]
#[verifier::external_body]
pub struct ExJsonValue(serde_json::Value);

#[verifier::external_type_specification]
#[verifier::external_body]
pub struct ExJsonError(serde_json::Error);

/// What serde_json makes of `text`: the document, or `None` when it is not JSON.
pub uninterp spec fn json_of_text(text: Seq<char>) -> Option<Json>;

/// The second half of `parse_json`. Relies on serde_json's `Value` and
/// `Number` (`as_u64`, `as_i64`, `Display`): rebuilds the tree that serde_json
/// parsed, one node for one node, an object's members in the order its map
/// yields them.
#[verifier::external_body]
fn from_value(v: serde_json::Value) -> Json {
    match v {
        serde_json::Value::Null => Json::Null,
        serde_json::Value::Bool(b) => Json::Bool(b),
        serde_json::Value::Number(n) => Json::Number(match (n.as_u64(), n.as_i64()) {
            (Some(u), _) => JsonNumber::PosInt(u),
            (None, Some(i)) => JsonNumber::NegInt(i),
            (None, None) => JsonNumber::Float(n.to_string()),
        }),
        serde_json::Value::String(s) => Json::Text(s),
        serde_json::Value::Array(a) => Json::Array(a.into_iter().map(from_value).collect()),
        serde_json::Value::Object(o) => Json::Object(o.into_iter().map(|(k, x)| (k, from_value(x))).collect()),
    }
}

/// Relies on `serde_json::from_str::<serde_json::Value>`: parses `text` as one
/// JSON document; the outcome depends on the text alone.
#[verifier::external_body]
pub(crate) fn parse_json(text: &str) -> (r: Result<Json, serde_json::Error>)
    ensures
        r is Ok <==> json_of_text(text@) is Some,
        r matches Ok(j) ==> json_of_text(text@) == Some(j),
{
    serde_json::from_str::<serde_json::Value>(text).map(from_value)
}

} // verus!
