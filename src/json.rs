//! A JSON document as plain values, and lookup of an object's members.

use vstd::prelude::*;

verus! {

broadcast use vstd::std_specs::vec::group_vec_axioms;

#[verifier::external_type_specification]
#[verifier::external_body]
pub struct ExOutsideNumber(serde_json::Number);

/// Relies on the derived `Clone` of `serde_json::Number`: the copy is the same number.
pub assume_specification[ <serde_json::Number as Clone>::clone ](n: &serde_json::Number) -> (r: serde_json::Number)
    ensures
        r == *n,
;

/// A JSON number.
#[derive(Clone, Debug, PartialEq)]
pub enum JsonNumber {
    /// An integer of zero or more.
    PosInt(u64),
    /// An integer below zero.
    NegInt(i64),
    /// A number with a fraction or an exponent, carried as it was read.
    Float(serde_json::Number),
}

/// A JSON document. An object keeps its members in the order they are written.
#[derive(Debug)]
pub enum JsonValue {
    Null,
    Bool(bool),
    Number(JsonNumber),
    Str(String),
    Array(Vec<JsonValue>),
    Object(Vec<(String, JsonValue)>),
}

/// A JSON document as a mathematical value: strings are sequences of characters.
pub enum Json {
    Null,
    Bool(bool),
    Number(JsonNumber),
    Str(Seq<char>),
    Array(Seq<Json>),
    Object(Seq<(Seq<char>, Json)>),
}

/// The mathematical value of a document.
pub open spec fn json_of(v: JsonValue) -> Json
    decreases v, 0nat,
{
    match v {
        JsonValue::Null => Json::Null,
        JsonValue::Bool(b) => Json::Bool(b),
        JsonValue::Number(n) => Json::Number(n),
        JsonValue::Str(s) => Json::Str(s@),
        JsonValue::Array(items) => Json::Array(items_of(items, items.len() as int)),
        JsonValue::Object(members) => Json::Object(members_of(members, members.len() as int)),
    }
}

/// The values of the first `n` items.
pub open spec fn items_of(items: Vec<JsonValue>, n: int) -> Seq<Json>
    decreases items, n,
{
    if n <= 0 || n > items.len() {
        Seq::empty()
    } else {
        items_of(items, n - 1).push(json_of(items[n - 1]))
    }
}

/// The names and values of the first `n` members.
pub open spec fn members_of(members: Vec<(String, JsonValue)>, n: int) -> Seq<(Seq<char>, Json)>
    decreases members, n,
{
    if n <= 0 || n > members.len() {
        Seq::empty()
    } else {
        members_of(members, n - 1).push((members[n - 1].0@, json_of(members[n - 1].1)))
    }
}

impl View for JsonValue {
    type V = Json;

    open spec fn view(&self) -> Json {
        json_of(*self)
    }
}

impl JsonNumber {
    /// A copy of this number.
    pub fn copy(&self) -> (r: JsonNumber)
        ensures
            r == *self,
    {
        match self {
            JsonNumber::PosInt(u) => JsonNumber::PosInt(*u),
            JsonNumber::NegInt(i) => JsonNumber::NegInt(*i),
            JsonNumber::Float(n) => JsonNumber::Float(n.clone()),
        }
    }
}

/// The names and values of a list of members.
pub open spec fn members_view(members: Seq<(String, JsonValue)>) -> Seq<(Seq<char>, Json)> {
    members.map_values(|p: (String, JsonValue)| (p.0@, p.1@))
}

proof fn lemma_members_of(members: Vec<(String, JsonValue)>, n: int)
    requires
        0 <= n <= members.len(),
    ensures
        members_of(members, n) == members_view(members@.take(n)),
    decreases n,
{
    if n > 0 {
        lemma_members_of(members, n - 1);
        assert(members_view(members@.take(n)) =~= members_view(members@.take(n - 1)).push(
            (members[n - 1].0@, members[n - 1].1@),
        ));
    } else {
        assert(members_view(members@.take(n)) =~= Seq::empty());
    }
}

/// The view of an object is the view of its members.
pub proof fn lemma_object_view(members: Vec<(String, JsonValue)>)
    ensures
        JsonValue::Object(members)@ == Json::Object(members_view(members@)),
{
    lemma_members_of(members, members.len() as int);
    assert(members@.take(members.len() as int) =~= members@);
}

/// The value of the first member named `key` at index `i` or after it.
pub open spec fn find_from(members: Seq<(Seq<char>, Json)>, key: Seq<char>, i: int) -> Option<Json>
    decreases members.len() - i,
{
    if i < 0 || i >= members.len() {
        None
    } else if members[i].0 == key {
        Some(members[i].1)
    } else {
        find_from(members, key, i + 1)
    }
}

/// The value of the first member of `members` named `key`.
pub open spec fn find(members: Seq<(Seq<char>, Json)>, key: Seq<char>) -> Option<Json> {
    find_from(members, key, 0)
}

/// Where the member at index `i` is the first named `key`, `find` gives its value.
pub proof fn lemma_find_at(members: Seq<(Seq<char>, Json)>, key: Seq<char>, i: int)
    requires
        0 <= i < members.len(),
        members[i].0 == key,
        forall|j: int| 0 <= j < i ==> members[j].0 != key,
    ensures
        find(members, key) == Some(members[i].1),
{
    lemma_find_from_at(members, key, 0, i);
}

proof fn lemma_find_from_at(members: Seq<(Seq<char>, Json)>, key: Seq<char>, k: int, i: int)
    requires
        0 <= k <= i < members.len(),
        members[i].0 == key,
        forall|j: int| 0 <= j < i ==> members[j].0 != key,
    ensures
        find_from(members, key, k) == Some(members[i].1),
    decreases i - k,
{
    if k < i {
        lemma_find_from_at(members, key, k + 1, i);
    }
}

proof fn lemma_find_insert_after(
    members: Seq<(Seq<char>, Json)>,
    key: Seq<char>,
    i: int,
    extra: (Seq<char>, Json),
    j: int,
)
    requires
        0 <= i <= j,
        i <= members.len(),
    ensures
        find_from(members.insert(i, extra), key, j + 1) == find_from(members, key, j),
    decreases members.len() - j,
{
    if j < members.len() {
        lemma_find_insert_after(members, key, i, extra, j + 1);
    }
}

proof fn lemma_find_insert_before(
    members: Seq<(Seq<char>, Json)>,
    key: Seq<char>,
    i: int,
    extra: (Seq<char>, Json),
    j: int,
)
    requires
        0 <= j <= i <= members.len(),
        extra.0 != key,
    ensures
        find_from(members.insert(i, extra), key, j) == find_from(members, key, j),
    decreases i - j,
{
    if j < i {
        lemma_find_insert_before(members, key, i, extra, j + 1);
    } else {
        lemma_find_insert_after(members, key, i, extra, j);
    }
}

/// A member inserted anywhere changes the lookup of no other name.
pub proof fn lemma_find_insert(members: Seq<(Seq<char>, Json)>, key: Seq<char>, i: int, extra: (Seq<char>, Json))
    requires
        0 <= i <= members.len(),
        extra.0 != key,
    ensures
        find(members.insert(i, extra), key) == find(members, key),
{
    lemma_find_insert_before(members, key, i, extra, 0);
}

/// The value of the first member of `members` named `key`, if there is one.
pub fn lookup<'a>(members: &'a Vec<(String, JsonValue)>, key: &String) -> (r: Option<&'a JsonValue>)
    ensures
        match r {
            Some(v) => find(members_view(members@), key@) == Some(v@),
            None => find(members_view(members@), key@) is None,
        },
{
    let ghost m = members_view(members@);
    let mut i: usize = 0;
    while i < members.len()
        invariant
            i <= members.len(),
            m == members_view(members@),
            find(m, key@) == find_from(m, key@, i as int),
        decreases members.len() - i,
    {
        if members[i].0 == *key {
            return Some(&members[i].1);
        }
        i = i + 1;
    }
    None
}

#[verifier::external_type_specification]
#[verifier::external_body]
pub struct ExOutsideValue(serde_json::Value);

#[verifier::external_type_specification]
#[verifier::external_body]
pub struct ExOutsideError(serde_json::Error);

/// The document that serde_json reads from a text, if the text is one.
pub uninterp spec fn parsed_json(text: Seq<char>) -> Option<Json>;

/// The compact text that serde_json writes for a document.
pub uninterp spec fn compact_json(v: Json) -> Seq<char>;

/// The indented text that serde_json writes for a document.
pub uninterp spec fn pretty_json(v: Json) -> Seq<char>;

/// Moves a serde_json number into this library's form.
#[verifier::external_body]
fn number_from_outside(n: serde_json::Number) -> JsonNumber {
    match (n.as_u64(), n.as_i64()) {
        (Some(u), _) => JsonNumber::PosInt(u),
        (None, Some(i)) => JsonNumber::NegInt(i),
        (None, None) => JsonNumber::Float(n),
    }
}

/// Moves a serde_json document into this library's form, members in order.
#[verifier::external_body]
fn from_outside(v: serde_json::Value) -> JsonValue {
    match v {
        serde_json::Value::Null => JsonValue::Null,
        serde_json::Value::Bool(b) => JsonValue::Bool(b),
        serde_json::Value::Number(n) => JsonValue::Number(number_from_outside(n)),
        serde_json::Value::String(s) => JsonValue::Str(s),
        serde_json::Value::Array(a) => JsonValue::Array(a.into_iter().map(from_outside).collect()),
        serde_json::Value::Object(m) => JsonValue::Object(
            m.into_iter().map(|(k, x)| (k, from_outside(x))).collect(),
        ),
    }
}

/// Copies a document of this library into serde_json's form, members in order.
#[verifier::external_body]
fn to_outside(v: &JsonValue) -> serde_json::Value {
    match v {
        JsonValue::Null => serde_json::Value::Null,
        JsonValue::Bool(b) => serde_json::Value::Bool(*b),
        JsonValue::Number(JsonNumber::PosInt(u)) => serde_json::Value::from(*u),
        JsonValue::Number(JsonNumber::NegInt(i)) => serde_json::Value::from(*i),
        JsonValue::Number(JsonNumber::Float(n)) => serde_json::Value::Number(n.clone()),
        JsonValue::Str(s) => serde_json::Value::String(s.clone()),
        JsonValue::Array(a) => serde_json::Value::Array(a.iter().map(to_outside).collect()),
        JsonValue::Object(m) => serde_json::Value::Object(
            m.iter().map(|(k, x)| (k.clone(), to_outside(x))).collect(),
        ),
    }
}

/// Relies on `serde_json::from_str` into a `serde_json::Value`: it fails
/// exactly where the text is not one JSON document, and its result depends
/// on the text alone.
#[verifier::external_body]
pub(crate) fn parse_json(text: &str) -> (r: Result<JsonValue, serde_json::Error>)
    ensures
        r is Ok <==> parsed_json(text@) is Some,
        r matches Ok(v) ==> parsed_json(text@) == Some(v@),
{
    serde_json::from_str::<serde_json::Value>(text).map(from_outside)
}

/// Relies on `serde_json::to_string` of a `serde_json::Value`: a value's map
/// keys are strings and the output goes to memory, so it cannot fail, and its
/// result depends on the document alone.
#[verifier::external_body]
pub(crate) fn write_json(v: &JsonValue) -> (r: Result<String, serde_json::Error>)
    ensures
        r is Ok,
        r matches Ok(s) ==> s@ == compact_json(v@),
{
    serde_json::to_string(&to_outside(v))
}

/// Relies on `serde_json::to_string_pretty` of a `serde_json::Value`: a
/// value's map keys are strings and the output goes to memory, so it cannot
/// fail, and its result depends on the document alone.
#[verifier::external_body]
pub(crate) fn write_json_pretty(v: &JsonValue) -> (r: Result<String, serde_json::Error>)
    ensures
        r is Ok,
        r matches Ok(s) ==> s@ == pretty_json(v@),
{
    serde_json::to_string_pretty(&to_outside(v))
}

} // verus!
