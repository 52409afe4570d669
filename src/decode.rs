//! Strict decoding of JSON values into typed records.
use vstd::prelude::*;
use crate::json::{Json, JsonNumber, lemma_same_json_symmetric, lookup, member, same_json, same_number};

verus! {

/// Why a JSON value does not have the expected shape.
#[derive(Debug, PartialEq, Eq)]
pub enum DecodeError {
    /// A value of the wrong kind or out of range, or a required member that is missing.
    Invalid,
    /// An object member that the shape does not declare.
    UnknownField(String),
    /// A union whose discriminator names no known variant.
    UnknownVariant,
    /// An object read as a map with two members of the same name.
    DuplicateKey,
}

/// A type decoded from a JSON value.
pub trait FromJson: Sized {
    /// `j` has the shape of this type.
    spec fn accepts(j: Json) -> bool;

    /// `v` is the value that `j` decodes to.
    spec fn reads(j: Json, v: Self) -> bool;

    /// `j` is a union value whose tag names none of the union's variants.
    spec fn unknown_variant(j: Json) -> bool;

    /// The member names of a strict object shape, which rejects any other
    /// member; `None` for the other shapes.
    spec fn strict_names() -> Option<Seq<&'static str>>;

    proof fn lemma_strict_names(j: Json)
        ensures
            Self::strict_names() matches Some(names) ==> (Self::accepts(j) ==> only_declared(
                j,
                names,
            )),
    ;

    fn from_json(j: &Json) -> (r: Result<Self, DecodeError>)
        ensures
            r is Ok <==> Self::accepts(*j),
            r matches Ok(v) ==> Self::reads(*j, v),
            Self::unknown_variant(*j) ==> r == Err::<Self, DecodeError>(DecodeError::UnknownVariant),
    ;
}

/// A type written as a JSON value that decodes back to it.
pub trait ToJson: FromJson {
    /// `self` is written as `null`.
    spec fn encodes_null(&self) -> bool;

    /// `self` is written as a value that decodes back to it. This fails only
    /// where a union's tag disagrees with its variant, or where `Some` holds a
    /// value written as `null` (which reads back as `None`).
    spec fn encodable(&self) -> bool;

    fn to_json(&self) -> (r: Json)
        requires
            self.encodable(),
        ensures
            Self::accepts(r),
            Self::reads(r, *self),
            r is Null <==> self.encodes_null(),
    ;
}

/// A type written as the name of an object member that decodes back to it.
pub trait ToKey: FromKey {
    fn to_key(&self) -> (r: String)
        ensures
            Self::key_accepts(r@),
            Self::key_reads(r@, *self),
            r@ == Self::key_name(*self),
    ;
}

/// A type decoded from the name of an object member.
pub trait FromKey: Sized {
    spec fn key_accepts(k: Seq<char>) -> bool;

    spec fn key_reads(k: Seq<char>, v: Self) -> bool;

    /// The one member name that reads as `v`.
    spec fn key_name(v: Self) -> Seq<char>;

    proof fn lemma_key_name(k: Seq<char>, v: Self)
        requires
            Self::key_reads(k, v),
        ensures
            k == Self::key_name(v),
    ;

    fn from_key(k: &String) -> (r: Result<Self, DecodeError>)
        ensures
            r is Ok <==> Self::key_accepts(k@),
            r matches Ok(v) ==> Self::key_reads(k@, v),
    ;
}

impl FromJson for bool {
    open spec fn accepts(j: Json) -> bool {
        j is Bool
    }

    open spec fn reads(j: Json, v: bool) -> bool {
        j == Json::Bool(v)
    }

    open spec fn unknown_variant(j: Json) -> bool {
        false
    }

    open spec fn strict_names() -> Option<Seq<&'static str>> {
        None
    }

    proof fn lemma_strict_names(j: Json) {
    }

    fn from_json(j: &Json) -> (r: Result<bool, DecodeError>) {
        match j {
            Json::Bool(b) => Ok(*b),
            _ => Err(DecodeError::Invalid),
        }
    }
}

/// The unsigned integer held by `j`, if it is one.
pub open spec fn unsigned_of(j: Json) -> Option<u64> {
    match j {
        Json::Number(JsonNumber::PosInt(n)) => Some(n),
        _ => None,
    }
}

impl FromJson for u64 {
    open spec fn accepts(j: Json) -> bool {
        unsigned_of(j) is Some
    }

    open spec fn reads(j: Json, v: u64) -> bool {
        unsigned_of(j) == Some(v)
    }

    open spec fn unknown_variant(j: Json) -> bool {
        false
    }

    open spec fn strict_names() -> Option<Seq<&'static str>> {
        None
    }

    proof fn lemma_strict_names(j: Json) {
    }

    fn from_json(j: &Json) -> (r: Result<u64, DecodeError>) {
        match j {
            Json::Number(JsonNumber::PosInt(n)) => Ok(*n),
            _ => Err(DecodeError::Invalid),
        }
    }
}

impl FromJson for u32 {
    open spec fn accepts(j: Json) -> bool {
        unsigned_of(j) matches Some(n) && n <= u32::MAX
    }

    open spec fn reads(j: Json, v: u32) -> bool {
        unsigned_of(j) == Some(v as u64)
    }

    open spec fn unknown_variant(j: Json) -> bool {
        false
    }

    open spec fn strict_names() -> Option<Seq<&'static str>> {
        None
    }

    proof fn lemma_strict_names(j: Json) {
    }

    fn from_json(j: &Json) -> (r: Result<u32, DecodeError>) {
        match j {
            Json::Number(JsonNumber::PosInt(n)) if *n <= 0xffff_ffffu64 => Ok(*n as u32),
            _ => Err(DecodeError::Invalid),
        }
    }
}

impl FromJson for u8 {
    open spec fn accepts(j: Json) -> bool {
        unsigned_of(j) matches Some(n) && n <= u8::MAX
    }

    open spec fn reads(j: Json, v: u8) -> bool {
        unsigned_of(j) == Some(v as u64)
    }

    open spec fn unknown_variant(j: Json) -> bool {
        false
    }

    open spec fn strict_names() -> Option<Seq<&'static str>> {
        None
    }

    proof fn lemma_strict_names(j: Json) {
    }

    fn from_json(j: &Json) -> (r: Result<u8, DecodeError>) {
        match j {
            Json::Number(JsonNumber::PosInt(n)) if *n <= 255u64 => Ok(*n as u8),
            _ => Err(DecodeError::Invalid),
        }
    }
}

impl FromJson for i64 {
    open spec fn accepts(j: Json) -> bool {
        match j {
            Json::Number(JsonNumber::PosInt(n)) => n <= i64::MAX,
            Json::Number(JsonNumber::NegInt(_)) => true,
            _ => false,
        }
    }

    open spec fn reads(j: Json, v: i64) -> bool {
        match j {
            Json::Number(JsonNumber::PosInt(n)) => n == v,
            Json::Number(JsonNumber::NegInt(n)) => n == v,
            _ => false,
        }
    }

    open spec fn unknown_variant(j: Json) -> bool {
        false
    }

    open spec fn strict_names() -> Option<Seq<&'static str>> {
        None
    }

    proof fn lemma_strict_names(j: Json) {
    }

    fn from_json(j: &Json) -> (r: Result<i64, DecodeError>) {
        match j {
            Json::Number(JsonNumber::PosInt(n)) if *n <= 0x7fff_ffff_ffff_ffffu64 => Ok(*n as i64),
            Json::Number(JsonNumber::NegInt(n)) => Ok(*n),
            _ => Err(DecodeError::Invalid),
        }
    }
}

impl FromJson for String {
    open spec fn accepts(j: Json) -> bool {
        j is Text
    }

    open spec fn reads(j: Json, v: String) -> bool {
        j matches Json::Text(s) && s@ == v@
    }

    open spec fn unknown_variant(j: Json) -> bool {
        false
    }

    open spec fn strict_names() -> Option<Seq<&'static str>> {
        None
    }

    proof fn lemma_strict_names(j: Json) {
    }

    fn from_json(j: &Json) -> (r: Result<String, DecodeError>) {
        match j {
            Json::Text(s) => Ok(s.clone()),
            _ => Err(DecodeError::Invalid),
        }
    }
}

/// Any number; used where the service sends a fractional quantity.
impl FromJson for JsonNumber {
    open spec fn accepts(j: Json) -> bool {
        j is Number
    }

    open spec fn reads(j: Json, v: JsonNumber) -> bool {
        j matches Json::Number(n) && same_number(n, v)
    }

    open spec fn unknown_variant(j: Json) -> bool {
        false
    }

    open spec fn strict_names() -> Option<Seq<&'static str>> {
        None
    }

    proof fn lemma_strict_names(j: Json) {
    }

    fn from_json(j: &Json) -> (r: Result<JsonNumber, DecodeError>) {
        match j {
            Json::Number(n) => Ok(n.copy()),
            _ => Err(DecodeError::Invalid),
        }
    }
}

/// Any value at all, kept as it is; used for free-form members.
impl FromJson for Json {
    open spec fn accepts(j: Json) -> bool {
        true
    }

    open spec fn reads(j: Json, v: Json) -> bool {
        same_json(v, j)
    }

    open spec fn unknown_variant(j: Json) -> bool {
        false
    }

    open spec fn strict_names() -> Option<Seq<&'static str>> {
        None
    }

    proof fn lemma_strict_names(j: Json) {
    }

    fn from_json(j: &Json) -> (r: Result<Json, DecodeError>) {
        Ok(j.copy())
    }
}

/// `null` (or a missing member) is `None`; anything else must decode as `T`.
impl<T: FromJson> FromJson for Option<T> {
    open spec fn accepts(j: Json) -> bool {
        j is Null || T::accepts(j)
    }

    open spec fn reads(j: Json, v: Option<T>) -> bool {
        if j is Null {
            v is None
        } else {
            v matches Some(x) && T::reads(j, x)
        }
    }

    open spec fn unknown_variant(j: Json) -> bool {
        false
    }

    open spec fn strict_names() -> Option<Seq<&'static str>> {
        None
    }

    proof fn lemma_strict_names(j: Json) {
    }

    fn from_json(j: &Json) -> (r: Result<Option<T>, DecodeError>) {
        match j {
            Json::Null => Ok(None),
            _ => {
                let x = T::from_json(j)?;
                Ok(Some(x))
            },
        }
    }
}

pub open spec fn all_accept<T: FromJson>(items: Seq<Json>) -> bool {
    forall|i: int| 0 <= i < items.len() ==> T::accepts(#[trigger] items[i])
}

pub open spec fn all_read<T: FromJson>(items: Seq<Json>, vs: Seq<T>) -> bool {
    &&& items.len() == vs.len()
    &&& forall|i: int| 0 <= i < items.len() ==> T::reads(#[trigger] items[i], vs[i])
}

/// An array whose every item decodes as `T`, in order.
impl<T: FromJson> FromJson for Vec<T> {
    open spec fn accepts(j: Json) -> bool {
        j matches Json::Array(items) && all_accept::<T>(items@)
    }

    open spec fn reads(j: Json, v: Vec<T>) -> bool {
        j matches Json::Array(items) && all_read::<T>(items@, v@)
    }

    open spec fn unknown_variant(j: Json) -> bool {
        false
    }

    open spec fn strict_names() -> Option<Seq<&'static str>> {
        None
    }

    proof fn lemma_strict_names(j: Json) {
    }

    fn from_json(j: &Json) -> (r: Result<Vec<T>, DecodeError>) {
        match j {
            Json::Array(items) => {
                let mut out: Vec<T> = Vec::new();
                let mut i: usize = 0;
                while i < items.len()
                    invariant
                        *j == Json::Array(*items),
                        i <= items@.len(),
                        out@.len() == i,
                        forall|k: int| 0 <= k < i ==> T::accepts(#[trigger] items@[k]),
                        forall|k: int| 0 <= k < i ==> T::reads(#[trigger] items@[k], out@[k]),
                    decreases items@.len() - i,
                {
                    match T::from_json(&items[i]) {
                        Ok(x) => out.push(x),
                        Err(e) => {
                            assert(!T::accepts(items@[i as int]));
                            return Err(e);
                        },
                    }
                    i = i + 1;
                }
                Ok(out)
            },
            _ => Err(DecodeError::Invalid),
        }
    }
}

pub open spec fn all_keys_accept<K: FromKey, V: FromJson>(members: Seq<(String, Json)>) -> bool {
    forall|i: int|
        0 <= i < members.len() ==> K::key_accepts((#[trigger] members[i]).0@) && V::accepts(
            members[i].1,
        )
}

pub open spec fn all_entries_read<K: FromKey, V: FromJson>(
    members: Seq<(String, Json)>,
    entries: Seq<(K, V)>,
) -> bool {
    &&& members.len() == entries.len()
    &&& forall|i: int|
        0 <= i < members.len() ==> K::key_reads((#[trigger] members[i]).0@, entries[i].0)
            && V::reads(members[i].1, entries[i].1)
}

/// No two members share a name.
pub open spec fn distinct_names(members: Seq<(String, Json)>) -> bool {
    forall|k: int, i: int|
        #![trigger members[k], members[i]]
        0 <= k < i < members.len() ==> members[k].0@ != members[i].0@
}

/// No two entries share a key: their member names differ.
pub open spec fn distinct_keys<K: FromKey, V>(entries: Seq<(K, V)>) -> bool {
    forall|k: int, i: int|
        #![trigger entries[k], entries[i]]
        0 <= k < i < entries.len() ==> K::key_name(entries[k].0) != K::key_name(entries[i].0)
}

/// Whether the members of an object have pairwise distinct names.
fn names_are_distinct(members: &Vec<(String, Json)>) -> (r: bool)
    ensures
        r == distinct_names(members@),
{
    let mut i: usize = 0;
    while i < members.len()
        invariant
            i <= members@.len(),
            forall|k: int, m: int|
                #![trigger members@[k], members@[m]]
                0 <= k < m < i ==> members@[k].0@ != members@[m].0@,
        decreases members@.len() - i,
    {
        let mut k: usize = 0;
        while k < i
            invariant
                i < members@.len(),
                k <= i,
                forall|a: int, m: int|
                    #![trigger members@[a], members@[m]]
                    0 <= a < m < i ==> members@[a].0@ != members@[m].0@,
                forall|a: int| 0 <= a < k ==> (#[trigger] members@[a]).0@ != members@[i as int].0@,
            decreases i - k,
        {
            if members[k].0 == members[i].0 {
                return false;
            }
            k = k + 1;
        }
        i = i + 1;
    }
    true
}

/// An object read as a map: one entry per member, in the object's order. No
/// two entries have the same key.
#[derive(Debug, PartialEq, Eq)]
pub struct JsonMap<K, V> {
    pub entries: Vec<(K, V)>,
}

impl<K: FromKey, V: FromJson> FromJson for JsonMap<K, V> {
    open spec fn accepts(j: Json) -> bool {
        j matches Json::Object(members) && distinct_names(members@) && all_keys_accept::<K, V>(
            members@,
        )
    }

    open spec fn reads(j: Json, v: JsonMap<K, V>) -> bool {
        j matches Json::Object(members) && all_entries_read::<K, V>(members@, v.entries@)
            && distinct_keys::<K, V>(v.entries@)
    }

    open spec fn unknown_variant(j: Json) -> bool {
        false
    }

    open spec fn strict_names() -> Option<Seq<&'static str>> {
        None
    }

    proof fn lemma_strict_names(j: Json) {
    }

    fn from_json(j: &Json) -> (r: Result<JsonMap<K, V>, DecodeError>) {
        match j {
            Json::Object(members) => {
                if !names_are_distinct(members) {
                    return Err(DecodeError::DuplicateKey);
                }
                let mut entries: Vec<(K, V)> = Vec::new();
                let mut i: usize = 0;
                while i < members.len()
                    invariant
                        *j == Json::Object(*members),
                        i <= members@.len(),
                        entries@.len() == i,
                        all_keys_accept::<K, V>(members@.subrange(0, i as int)),
                        all_entries_read::<K, V>(members@.subrange(0, i as int), entries@),
                    decreases members@.len() - i,
                {
                    let key = match K::from_key(&members[i].0) {
                        Ok(k) => k,
                        Err(e) => {
                            assert(!K::key_accepts(members@[i as int].0@));
                            return Err(e);
                        },
                    };
                    let value = match V::from_json(&members[i].1) {
                        Ok(x) => x,
                        Err(e) => {
                            assert(!V::accepts(members@[i as int].1));
                            return Err(e);
                        },
                    };
                    entries.push((key, value));
                    i = i + 1;
                    assert(members@.subrange(0, i as int) =~= members@.subrange(0, i - 1).push(
                        members@[i - 1],
                    ));
                }
                assert(members@.subrange(0, i as int) =~= members@);
                proof {
                    assert forall|k: int, m: int|
                        #![trigger entries@[k], entries@[m]]
                        0 <= k < m < entries@.len() implies K::key_name(entries@[k].0)
                        != K::key_name(entries@[m].0) by {
                        K::lemma_key_name(members@[k].0@, entries@[k].0);
                        K::lemma_key_name(members@[m].0@, entries@[m].0);
                    }
                }
                Ok(JsonMap { entries })
            },
            _ => Err(DecodeError::Invalid),
        }
    }
}

pub open spec fn is_digit(c: char) -> bool {
    '0' <= c && c <= '9'
}

/// The number written by a string of decimal digits.
pub open spec fn digits_value(s: Seq<char>) -> nat
    decreases s.len(),
{
    if s.len() == 0 {
        0
    } else {
        digits_value(s.drop_last()) * 10 + ((s.last() as u32) - ('0' as u32)) as nat
    }
}

/// `s` is an integer as JSON writes one without a sign: one or more digits,
/// with no leading zero unless the digits are `0` alone.
pub open spec fn canonical_digits(s: Seq<char>) -> bool {
    &&& s.len() > 0
    &&& forall|i: int| 0 <= i < s.len() ==> is_digit(#[trigger] s[i])
    &&& (s.len() == 1 || s[0] != '0')
}

/// The number that `s` writes in decimal, if it is written as `canonical_digits` says.
pub open spec fn decimal_value(s: Seq<char>) -> Option<nat> {
    if canonical_digits(s) {
        Some(digits_value(s))
    } else {
        None
    }
}

proof fn lemma_char_digit(c: char)
    requires
        is_digit(c),
    ensures
        ((c as u32) - ('0' as u32)) < 10,
        digit_char(((c as u32) - ('0' as u32)) as nat) == c,
{
}

/// Each number has one canonical decimal spelling.
pub proof fn lemma_canonical_unique(s: Seq<char>)
    requires
        canonical_digits(s),
    ensures
        s == decimal(digits_value(s)),
    decreases s.len(),
{
    let n = digits_value(s);
    let c = s.last();
    let d = ((c as u32) - ('0' as u32)) as nat;
    lemma_char_digit(c);
    let t = s.drop_last();
    if s.len() == 1 {
        assert(t =~= Seq::<char>::empty());
        assert(n == d);
        assert(s =~= seq![c]);
    } else {
        assert(canonical_digits(t)) by {
            assert forall|i: int| 0 <= i < t.len() implies is_digit(#[trigger] t[i]) by {
                assert(t[i] == s[i]);
            }
            assert(t[0] == s[0]);
        }
        lemma_canonical_unique(t);
        let m = digits_value(t);
        if m == 0 {
            assert(t[0] == '0');
        }
        assert(n == m * 10 + d);
        assert(n / 10 == m && n % 10 == d) by (nonlinear_arith)
            requires
                n == m * 10 + d,
                d < 10,
        ;
        assert(n >= 10) by (nonlinear_arith)
            requires
                n == m * 10 + d,
                m >= 1,
        ;
        assert(s =~= t.push(c));
    }
}

/// A longer run of digits writes at least as large a number.
proof fn lemma_digits_prefix(s: Seq<char>, i: int)
    requires
        0 <= i <= s.len(),
    ensures
        digits_value(s.subrange(0, i)) <= digits_value(s),
    decreases s.len(),
{
    if i < s.len() {
        assert(s.drop_last().subrange(0, i) =~= s.subrange(0, i));
        lemma_digits_prefix(s.drop_last(), i);
    } else {
        assert(s.subrange(0, i) =~= s);
    }
}

/// Reads a member name that writes a number in decimal.
fn parse_decimal(s: &str) -> (r: Option<u64>)
    ensures
        r is Some <==> decimal_fits(s@, u64::MAX as nat),
        r matches Some(n) ==> decimal_value(s@) == Some(n as nat),
{
    let len = s.unicode_len();
    if len == 0 {
        return None;
    }
    if len > 1 && s.get_char(0) == '0' {
        return None;
    }
    let mut value: u64 = 0;
    let mut i: usize = 0;
    while i < len
        invariant
            len == s@.len(),
            i <= len,
            forall|k: int| 0 <= k < i ==> is_digit(#[trigger] s@[k]),
            value as nat == digits_value(s@.subrange(0, i as int)),
        decreases len - i,
    {
        let c = s.get_char(i);
        if !('0' <= c && c <= '9') {
            return None;
        }
        let d = (c as u32 - '0' as u32) as u64;
        proof {
            assert(s@.subrange(0, i + 1).drop_last() =~= s@.subrange(0, i as int));
            assert(digits_value(s@.subrange(0, i + 1)) == digits_value(s@.subrange(0, i as int)) * 10
                + d);
        }
        if value > (0xffff_ffff_ffff_ffffu64 - d) / 10 {
            proof {
                assert(value * 10 + d > 0xffff_ffff_ffff_ffffu64) by (nonlinear_arith)
                    requires
                        value > (0xffff_ffff_ffff_ffffu64 - d) / 10,
                        d <= 9,
                ;
                lemma_digits_prefix(s@, i + 1);
            }
            return None;
        }
        value = value * 10 + d;
        i = i + 1;
    }
    assert(s@.subrange(0, len as int) =~= s@);
    Some(value)
}

/// The decimal digits of `n`.
pub open spec fn decimal(n: nat) -> Seq<char>
    decreases n,
{
    if n < 10 {
        seq![digit_char(n)]
    } else {
        decimal(n / 10).push(digit_char(n % 10))
    }
}

pub open spec fn digit_char(d: nat) -> char {
    if d == 0 {
        '0'
    } else if d == 1 {
        '1'
    } else if d == 2 {
        '2'
    } else if d == 3 {
        '3'
    } else if d == 4 {
        '4'
    } else if d == 5 {
        '5'
    } else if d == 6 {
        '6'
    } else if d == 7 {
        '7'
    } else if d == 8 {
        '8'
    } else {
        '9'
    }
}

/// The one-character text of digit `d`.
fn digit_text(d: u64) -> (r: &'static str)
    requires
        d < 10,
    ensures
        r@ == seq![digit_char(d as nat)],
{
    if d == 0 {
        proof {
            reveal_strlit("0");
        }
        "0"
    } else if d == 1 {
        proof {
            reveal_strlit("1");
        }
        "1"
    } else if d == 2 {
        proof {
            reveal_strlit("2");
        }
        "2"
    } else if d == 3 {
        proof {
            reveal_strlit("3");
        }
        "3"
    } else if d == 4 {
        proof {
            reveal_strlit("4");
        }
        "4"
    } else if d == 5 {
        proof {
            reveal_strlit("5");
        }
        "5"
    } else if d == 6 {
        proof {
            reveal_strlit("6");
        }
        "6"
    } else if d == 7 {
        proof {
            reveal_strlit("7");
        }
        "7"
    } else if d == 8 {
        proof {
            reveal_strlit("8");
        }
        "8"
    } else {
        proof {
            reveal_strlit("9");
        }
        "9"
    }
}

/// `n` in decimal, with no sign and no leading zeros.
pub fn decimal_text(n: u64) -> (r: String)
    ensures
        r@ == decimal(n as nat),
    decreases n,
{
    if n < 10 {
        String::from_str(digit_text(n))
    } else {
        let mut text = decimal_text(n / 10);
        text.append(digit_text(n % 10));
        text
    }
}

proof fn lemma_digit_char(d: nat)
    requires
        d < 10,
    ensures
        is_digit(digit_char(d)),
        (digit_char(d) as u32) - ('0' as u32) == d,
{
}

/// The digits that `decimal` writes are read back as the same number.
pub proof fn lemma_decimal_value(n: nat)
    ensures
        decimal_value(decimal(n)) == Some(n),
        forall|i: int| 0 <= i < decimal(n).len() ==> is_digit(#[trigger] decimal(n)[i]),
        decimal(n).len() > 0,
        n > 0 ==> decimal(n)[0] != '0',
        digits_value(decimal(n)) == n,
    decreases n,
{
    let d = decimal(n);
    let c = digit_char(n % 10);
    lemma_digit_char(n % 10);
    if n < 10 {
        assert(d =~= seq![c]);
        assert(d.drop_last() =~= Seq::<char>::empty());
        assert(digits_value(d) == digits_value(d.drop_last()) * 10 + ((d.last() as u32) - ('0' as u32)) as nat);
    } else {
        lemma_decimal_value(n / 10);
        assert(d == decimal(n / 10).push(c));
        assert(d.drop_last() =~= decimal(n / 10));
        assert(d.last() == c);
        assert(d[0] == decimal(n / 10)[0]);
        assert(digits_value(d) == digits_value(d.drop_last()) * 10 + ((d.last() as u32) - ('0' as u32)) as nat);
        assert((n / 10) * 10 + n % 10 == n) by (nonlinear_arith);
        assert forall|i: int| 0 <= i < d.len() implies is_digit(#[trigger] d[i]) by {
            if i < d.len() - 1 {
                assert(d[i] == decimal(n / 10)[i]);
            }
        }
    }
    assert(is_digit(d[0]));
}

/// `s` writes a number in decimal that is at most `max`.
pub open spec fn decimal_fits(s: Seq<char>, max: nat) -> bool {
    match decimal_value(s) {
        Some(v) => v <= max,
        None => false,
    }
}

/// Any member name.
impl FromKey for String {
    open spec fn key_accepts(k: Seq<char>) -> bool {
        true
    }

    open spec fn key_reads(k: Seq<char>, v: String) -> bool {
        v@ == k
    }

    open spec fn key_name(v: String) -> Seq<char> {
        v@
    }

    proof fn lemma_key_name(k: Seq<char>, v: String) {
    }

    fn from_key(k: &String) -> (r: Result<String, DecodeError>) {
        Ok(k.clone())
    }
}

/// A member name that writes a number in decimal.
impl FromKey for u64 {
    open spec fn key_accepts(k: Seq<char>) -> bool {
        decimal_fits(k, u64::MAX as nat)
    }

    open spec fn key_reads(k: Seq<char>, v: u64) -> bool {
        decimal_value(k) == Some(v as nat)
    }

    open spec fn key_name(v: u64) -> Seq<char> {
        decimal(v as nat)
    }

    proof fn lemma_key_name(k: Seq<char>, v: u64) {
        lemma_canonical_unique(k);
    }

    fn from_key(k: &String) -> (r: Result<u64, DecodeError>) {
        match parse_decimal(k.as_str()) {
            Some(n) => Ok(n),
            None => Err(DecodeError::Invalid),
        }
    }
}

impl FromKey for u32 {
    open spec fn key_accepts(k: Seq<char>) -> bool {
        decimal_fits(k, u32::MAX as nat)
    }

    open spec fn key_reads(k: Seq<char>, v: u32) -> bool {
        decimal_value(k) == Some(v as nat)
    }

    open spec fn key_name(v: u32) -> Seq<char> {
        decimal(v as nat)
    }

    proof fn lemma_key_name(k: Seq<char>, v: u32) {
        lemma_canonical_unique(k);
    }

    fn from_key(k: &String) -> (r: Result<u32, DecodeError>) {
        match parse_decimal(k.as_str()) {
            Some(n) => {
                assert(decimal_value(k@) == Some(n as nat));
                if n <= 0xffff_ffffu64 {
                    assert(decimal_fits(k@, u32::MAX as nat));
                    assert(<u32 as FromKey>::key_accepts(k@));
                    assert(<u32 as FromKey>::key_reads(k@, n as u32));
                    Ok(n as u32)
                } else {
                    Err(DecodeError::Invalid)
                }
            },
            None => {
                assert(!decimal_fits(k@, u64::MAX as nat));
                Err(DecodeError::Invalid)
            },
        }
    }
}

/// `names[n]` is `k` for some `n`.
pub open spec fn declared(names: Seq<&str>, k: Seq<char>) -> bool {
    exists|n: int| 0 <= n < names.len() && (#[trigger] names[n])@ == k
}

/// `j` is an object and each of its members is one of `names`.
pub open spec fn only_declared(j: Json, names: Seq<&str>) -> bool {
    j matches Json::Object(members) && all_declared(members@, names)
}

pub open spec fn all_declared(members: Seq<(String, Json)>, names: Seq<&str>) -> bool {
    forall|i: int| 0 <= i < members.len() ==> declared(names, (#[trigger] members[i]).0@)
}

/// The members of `j`, when it is an object with no member outside `names`.
pub fn strict_members<'a>(j: &'a Json, names: &[&str]) -> (r: Result<
    &'a Vec<(String, Json)>,
    DecodeError,
>)
    ensures
        r is Ok <==> only_declared(*j, names@),
        r matches Ok(m) ==> *j == Json::Object(*m),
{
    match j {
        Json::Object(members) => {
            let mut i: usize = 0;
            while i < members.len()
                invariant
                    *j == Json::Object(*members),
                    i <= members@.len(),
                    forall|k: int| 0 <= k < i ==> declared(names@, (#[trigger] members@[k]).0@),
                decreases members@.len() - i,
            {
                let mut n: usize = 0;
                let mut found = false;
                while n < names.len() && !found
                    invariant
                        i < members@.len(),
                        n <= names@.len(),
                        found ==> declared(names@, members@[i as int].0@),
                        !found ==> forall|m: int| 0 <= m < n ==> (#[trigger] names@[m])@ != members@[i as int].0@,
                    decreases names@.len() - n,
                {
                    let name = String::from_str(names[n]);
                    if name == members[i].0 {
                        found = true;
                    }
                    n = n + 1;
                }
                if !found {
                    assert(!declared(names@, members@[i as int].0@));
                    return Err(DecodeError::UnknownField(members[i].0.clone()));
                }
                i = i + 1;
            }
            Ok(members)
        },
        _ => Err(DecodeError::Invalid),
    }
}

/// A strict object shape rejects a value with a member outside its names,
/// wherever that member stands: it is never decoded with the member dropped.
pub proof fn lemma_strict_shape_rejects_unknown_member<T: FromJson>(j: Json, i: int)
    requires
        T::strict_names() is Some,
        j is Object,
        0 <= i < j->Object_0@.len(),
        !declared(T::strict_names()->0, j->Object_0@[i].0@),
    ensures
        !T::accepts(j),
{
    T::lemma_strict_names(j);
}

/// Texts that differ pairwise.
pub open spec fn distinct_texts(names: Seq<&str>) -> bool {
    forall|k: int, i: int|
        #![trigger names[k], names[i]]
        0 <= k < i < names.len() ==> names[k]@ != names[i]@
}

/// An object whose members are named by `names`, in order and all different,
/// finds each member under its own name and has no member outside `names`.
pub proof fn lemma_object_members(m: Seq<(String, Json)>, names: Seq<&str>)
    requires
        m.len() == names.len(),
        forall|i: int| 0 <= i < m.len() ==> (#[trigger] m[i]).0@ == names[i]@,
        distinct_texts(names),
    ensures
        forall|i: int| 0 <= i < m.len() ==> lookup(m, (#[trigger] names[i])@) == m[i].1,
        all_declared(m, names),
{
    assert forall|i: int| 0 <= i < m.len() implies lookup(m, (#[trigger] names[i])@) == m[i].1 by {
        assert forall|k: int| 0 <= k < i implies (#[trigger] m[k]).0@ != names[i]@ by {
            assert(names[k]@ != names[i]@);
        }
        crate::json::lemma_lookup_at(m, i, names[i]@);
    }
    assert forall|i: int| 0 <= i < m.len() implies declared(names, (#[trigger] m[i]).0@) by {
        assert(names[i]@ == m[i].0@);
    }
}

/// Decodes the member `name`; a missing member reads as `null`.
pub fn decode_member<T: FromJson>(members: &Vec<(String, Json)>, name: &str) -> (r: Result<
    T,
    DecodeError,
>)
    ensures
        r is Ok <==> T::accepts(lookup(members@, name@)),
        r matches Ok(v) ==> T::reads(lookup(members@, name@), v),
{
    match member(members, name) {
        Some(x) => T::from_json(x),
        None => {
            let null = Json::Null;
            T::from_json(&null)
        },
    }
}

impl ToJson for bool {
    open spec fn encodes_null(&self) -> bool {
        false
    }

    open spec fn encodable(&self) -> bool {
        true
    }

    fn to_json(&self) -> (r: Json) {
        Json::Bool(*self)
    }
}

impl ToJson for u64 {
    open spec fn encodes_null(&self) -> bool {
        false
    }

    open spec fn encodable(&self) -> bool {
        true
    }

    fn to_json(&self) -> (r: Json) {
        Json::Number(JsonNumber::PosInt(*self))
    }
}

impl ToJson for u32 {
    open spec fn encodes_null(&self) -> bool {
        false
    }

    open spec fn encodable(&self) -> bool {
        true
    }

    fn to_json(&self) -> (r: Json) {
        Json::Number(JsonNumber::PosInt(*self as u64))
    }
}

impl ToJson for u8 {
    open spec fn encodes_null(&self) -> bool {
        false
    }

    open spec fn encodable(&self) -> bool {
        true
    }

    fn to_json(&self) -> (r: Json) {
        Json::Number(JsonNumber::PosInt(*self as u64))
    }
}

impl ToJson for i64 {
    open spec fn encodes_null(&self) -> bool {
        false
    }

    open spec fn encodable(&self) -> bool {
        true
    }

    fn to_json(&self) -> (r: Json) {
        if *self >= 0 {
            Json::Number(JsonNumber::PosInt(*self as u64))
        } else {
            Json::Number(JsonNumber::NegInt(*self))
        }
    }
}

impl ToJson for String {
    open spec fn encodes_null(&self) -> bool {
        false
    }

    open spec fn encodable(&self) -> bool {
        true
    }

    fn to_json(&self) -> (r: Json) {
        Json::Text(self.clone())
    }
}

impl ToJson for JsonNumber {
    open spec fn encodes_null(&self) -> bool {
        false
    }

    open spec fn encodable(&self) -> bool {
        true
    }

    fn to_json(&self) -> (r: Json) {
        Json::Number(self.copy())
    }
}

impl<T: ToJson> ToJson for Option<T> {
    open spec fn encodes_null(&self) -> bool {
        self is None
    }

    open spec fn encodable(&self) -> bool {
        match self {
            Some(x) => x.encodable() && !x.encodes_null(),
            None => true,
        }
    }

    fn to_json(&self) -> (r: Json) {
        match self {
            Some(x) => x.to_json(),
            None => Json::Null,
        }
    }
}

pub open spec fn all_encodable<T: ToJson>(items: Seq<T>) -> bool {
    forall|i: int| 0 <= i < items.len() ==> (#[trigger] items[i]).encodable()
}

pub open spec fn all_values_encodable<K, V: ToJson>(entries: Seq<(K, V)>) -> bool {
    forall|i: int| 0 <= i < entries.len() ==> (#[trigger] entries[i]).1.encodable()
}

/// Any value, written as it is.
impl ToJson for Json {
    open spec fn encodes_null(&self) -> bool {
        self is Null
    }

    open spec fn encodable(&self) -> bool {
        true
    }

    fn to_json(&self) -> (r: Json) {
        let r = self.copy();
        proof {
            lemma_same_json_symmetric(r, *self);
        }
        r
    }
}

impl<T: ToJson> ToJson for Vec<T> {
    open spec fn encodes_null(&self) -> bool {
        false
    }

    open spec fn encodable(&self) -> bool {
        all_encodable(self@)
    }

    fn to_json(&self) -> (r: Json) {
        let mut items: Vec<Json> = Vec::new();
        let mut i: usize = 0;
        while i < self.len()
            invariant
                i <= self@.len(),
                all_encodable(self@),
                items@.len() == i,
                forall|k: int| 0 <= k < i ==> T::accepts(#[trigger] items@[k]),
                forall|k: int| 0 <= k < i ==> T::reads(#[trigger] items@[k], self@[k]),
            decreases self@.len() - i,
        {
            items.push(self[i].to_json());
            i = i + 1;
        }
        Json::Array(items)
    }
}

impl ToKey for String {
    fn to_key(&self) -> (r: String) {
        self.clone()
    }
}

impl ToKey for u64 {
    fn to_key(&self) -> (r: String) {
        proof {
            lemma_decimal_value(*self as nat);
        }
        decimal_text(*self)
    }
}

impl ToKey for u32 {
    fn to_key(&self) -> (r: String) {
        proof {
            lemma_decimal_value(*self as nat);
        }
        decimal_text(*self as u64)
    }
}

impl<K: ToKey, V: ToJson> ToJson for JsonMap<K, V> {
    open spec fn encodes_null(&self) -> bool {
        false
    }

    open spec fn encodable(&self) -> bool {
        all_values_encodable(self.entries@) && distinct_keys::<K, V>(self.entries@)
    }

    fn to_json(&self) -> (r: Json) {
        let mut members: Vec<(String, Json)> = Vec::new();
        let mut i: usize = 0;
        while i < self.entries.len()
            invariant
                i <= self.entries@.len(),
                all_values_encodable(self.entries@),
                distinct_keys::<K, V>(self.entries@),
                members@.len() == i,
                forall|k: int| 0 <= k < i ==> (#[trigger] members@[k]).0@ == K::key_name(self.entries@[k].0),
                forall|k: int|
                    0 <= k < i ==> K::key_accepts((#[trigger] members@[k]).0@) && V::accepts(
                        members@[k].1,
                    ) && K::key_reads(members@[k].0@, self.entries@[k].0) && V::reads(
                        members@[k].1,
                        self.entries@[k].1,
                    ),
            decreases self.entries@.len() - i,
        {
            let name = self.entries[i].0.to_key();
            let value = self.entries[i].1.to_json();
            members.push((name, value));
            i = i + 1;
        }
        assert(distinct_names(members@));
        Json::Object(members)
    }
}

} // verus!
