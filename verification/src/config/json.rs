//! A JSON document model: values as parsed from text, with a mathematical view
//! in which an object is a map from member names to values. An object's
//! members are kept in order; where a name occurs more than once, the last
//! occurrence is the one that counts, as when a parser reads such an object.
//! A second view, the tree, keeps every member in order.
//! Text is turned into values, and values into text, by `serde_json`.
use crate::text::same_text;
use serde_json::{Number, Value};
use vstd::prelude::*;

verus! {

/// A JSON number, in the three forms that `serde_json` holds: a non-negative
/// integer, a negative integer, or a float, kept as the shortest text that
/// reads back exactly as it.
#[derive(Debug, PartialEq)]
pub enum JsonNumber {
    PosInt(u64),
    NegInt(i64),
    Float(String),
}

/// The mathematical view of a JSON number.
pub enum JsonNum {
    PosInt(u64),
    NegInt(i64),
    Float(Seq<char>),
}

impl View for JsonNumber {
    type V = JsonNum;

    open spec fn view(&self) -> JsonNum {
        match self {
            JsonNumber::PosInt(u) => JsonNum::PosInt(*u),
            JsonNumber::NegInt(i) => JsonNum::NegInt(*i),
            JsonNumber::Float(t) => JsonNum::Float(t@),
        }
    }
}

/// A JSON value.
#[derive(Debug, PartialEq)]
pub enum JsonValue {
    Null,
    Bool(bool),
    Number(JsonNumber),
    Str(String),
    Array(Vec<JsonValue>),
    Object(Vec<(String, JsonValue)>),
}

/// The mathematical view of a JSON value.
pub enum Json {
    Null,
    Bool(bool),
    Number(JsonNum),
    Str(Seq<char>),
    Array(Seq<Json>),
    Object(Map<Seq<char>, Json>),
}

pub open spec fn json_of(v: JsonValue) -> Json
    decreases v,
{
    match v {
        JsonValue::Null => Json::Null,
        JsonValue::Bool(b) => Json::Bool(b),
        JsonValue::Number(n) => Json::Number(n@),
        JsonValue::Str(t) => Json::Str(t@),
        JsonValue::Array(items) => Json::Array(json_items(items@)),
        JsonValue::Object(members) => Json::Object(json_members(members@)),
    }
}

pub open spec fn json_items(items: Seq<JsonValue>) -> Seq<Json>
    decreases items,
{
    if items.len() == 0 {
        Seq::empty()
    } else {
        json_items(items.drop_last()).push(json_of(items.last()))
    }
}

/// The members of an object as a map; a later member overrides an earlier
/// one of the same name.
pub open spec fn json_members(members: Seq<(String, JsonValue)>) -> Map<Seq<char>, Json>
    decreases members,
{
    if members.len() == 0 {
        Map::empty()
    } else {
        json_members(members.drop_last()).insert(
            members.last().0@,
            json_of(members.last().1),
        )
    }
}

/// The whole shape of a JSON value: every member of an object, in order,
/// those with a repeated name included.
pub enum JsonTree {
    Null,
    Bool(bool),
    Number(JsonNum),
    Str(Seq<char>),
    Array(Seq<JsonTree>),
    Object(Seq<(Seq<char>, JsonTree)>),
}

pub open spec fn json_tree(v: JsonValue) -> JsonTree
    decreases v,
{
    match v {
        JsonValue::Null => JsonTree::Null,
        JsonValue::Bool(b) => JsonTree::Bool(b),
        JsonValue::Number(n) => JsonTree::Number(n@),
        JsonValue::Str(t) => JsonTree::Str(t@),
        JsonValue::Array(items) => JsonTree::Array(tree_items(items@)),
        JsonValue::Object(members) => JsonTree::Object(tree_members(members@)),
    }
}

pub open spec fn tree_items(items: Seq<JsonValue>) -> Seq<JsonTree>
    decreases items,
{
    if items.len() == 0 {
        Seq::empty()
    } else {
        tree_items(items.drop_last()).push(json_tree(items.last()))
    }
}

pub open spec fn tree_members(members: Seq<(String, JsonValue)>) -> Seq<(Seq<char>, JsonTree)>
    decreases members,
{
    if members.len() == 0 {
        Seq::empty()
    } else {
        tree_members(members.drop_last()).push(
            (members.last().0@, json_tree(members.last().1)),
        )
    }
}

/// `v` is printed in a form that parses back to it: it holds no float, each
/// negative-integer number is below zero, and its arrays and objects nest at
/// most `depth` levels deep.
pub open spec fn prints_back(v: JsonValue, depth: nat) -> bool
    decreases v,
{
    match v {
        JsonValue::Number(JsonNumber::NegInt(i)) => i < 0,
        JsonValue::Number(JsonNumber::Float(_)) => false,
        JsonValue::Array(items) => depth > 0 && items_print_back(items@, (depth - 1) as nat),
        JsonValue::Object(members) => depth > 0 && members_print_back(
            members@,
            (depth - 1) as nat,
        ),
        _ => true,
    }
}

pub open spec fn items_print_back(items: Seq<JsonValue>, depth: nat) -> bool
    decreases items,
{
    if items.len() == 0 {
        true
    } else {
        items_print_back(items.drop_last(), depth) && prints_back(items.last(), depth)
    }
}

pub open spec fn members_print_back(members: Seq<(String, JsonValue)>, depth: nat) -> bool
    decreases members,
{
    if members.len() == 0 {
        true
    } else {
        members_print_back(members.drop_last(), depth) && prints_back(members.last().1, depth)
    }
}

/// How deep `serde_json`'s parser lets arrays and objects nest: it refuses the
/// 128th level.
pub open spec fn parse_depth_limit() -> nat {
    127
}

impl View for JsonValue {
    type V = Json;

    open spec fn view(&self) -> Json {
        json_of(*self)
    }
}

/// The members of a JSON object; empty for any other value.
pub open spec fn object_members(j: Json) -> Map<Seq<char>, Json> {
    match j {
        Json::Object(m) => m,
        _ => Map::empty(),
    }
}

/// The member `k` of an object, if it has one.
pub open spec fn member(j: Json, k: Seq<char>) -> Option<Json> {
    if object_members(j).contains_key(k) {
        Some(object_members(j)[k])
    } else {
        None
    }
}

/// `m` with `inner` set to `v` inside its member `outer`, where that member
/// is an object; `m` itself otherwise.
pub open spec fn with_nested_member(
    m: Map<Seq<char>, Json>,
    outer: Seq<char>,
    inner: Seq<char>,
    v: Json,
) -> Map<Seq<char>, Json> {
    if m.contains_key(outer) && m[outer] is Object {
        m.insert(outer, Json::Object(object_members(m[outer]).insert(inner, v)))
    } else {
        m
    }
}

/// `i` is the last position of a member named `k`.
pub open spec fn last_named(members: Seq<(String, JsonValue)>, k: Seq<char>, i: int) -> bool {
    &&& 0 <= i < members.len()
    &&& members[i].0@ == k
    &&& forall|j: int| i < j < members.len() ==> members[j].0@ != k
}

pub proof fn lemma_member_lookup(members: Seq<(String, JsonValue)>, k: Seq<char>, i: int)
    requires
        last_named(members, k, i),
    ensures
        json_members(members).contains_key(k),
        json_members(members)[k] == json_of(members[i].1),
    decreases members.len(),
{
    if i < members.len() - 1 {
        lemma_member_lookup(members.drop_last(), k, i);
    }
}

pub proof fn lemma_member_absent(members: Seq<(String, JsonValue)>, k: Seq<char>)
    requires
        forall|j: int| 0 <= j < members.len() ==> members[j].0@ != k,
    ensures
        !json_members(members).contains_key(k),
    decreases members.len(),
{
    if members.len() > 0 {
        lemma_member_absent(members.drop_last(), k);
    }
}

/// Replacing the last member of a name sets that name in the view.
pub proof fn lemma_member_update(
    members: Seq<(String, JsonValue)>,
    i: int,
    e: (String, JsonValue),
)
    requires
        last_named(members, e.0@, i),
    ensures
        json_members(members.update(i, e)) == json_members(members).insert(e.0@, json_of(e.1)),
    decreases members.len(),
{
    let updated = members.update(i, e);
    if i == members.len() - 1 {
        assert(updated.drop_last() =~= members.drop_last());
        assert(json_members(updated) =~= json_members(members).insert(e.0@, json_of(e.1)));
    } else {
        lemma_member_update(members.drop_last(), i, e);
        assert(updated.drop_last() =~= members.drop_last().update(i, e));
        assert(json_members(updated) =~= json_members(members).insert(e.0@, json_of(e.1)));
    }
}

/// The position of the last member named `key`, if any.
pub fn last_member_index(members: &Vec<(String, JsonValue)>, key: &str) -> (r: Option<usize>)
    ensures
        match r {
            Some(i) => last_named(members@, key@, i as int),
            None => forall|j: int| 0 <= j < members@.len() ==> members@[j].0@ != key@,
        },
{
    let mut i = members.len();
    while i > 0
        invariant
            i <= members@.len(),
            forall|j: int| i <= j < members@.len() ==> members@[j].0@ != key@,
        decreases i,
    {
        i = i - 1;
        if same_text(members[i].0.as_str(), key) {
            return Some(i);
        }
    }
    None
}

impl JsonValue {
    /// The member `key` of an object; `None` for a missing member or a value
    /// that is not an object.
    pub fn get(&self, key: &str) -> (r: Option<&JsonValue>)
        ensures
            match self@ {
                Json::Object(m) => if m.contains_key(key@) {
                    r matches Some(v) && v@ == m[key@]
                } else {
                    r is None
                },
                _ => r is None,
            },
    {
        match self {
            JsonValue::Object(members) => match last_member_index(members, key) {
                Some(i) => {
                    proof {
                        lemma_member_lookup(members@, key@, i as int);
                    }
                    Some(&members[i].1)
                },
                None => {
                    proof {
                        lemma_member_absent(members@, key@);
                    }
                    None
                },
            },
            _ => None,
        }
    }
}

/// Set the member `key` of an object's members to `value`.
pub fn set_member(members: &mut Vec<(String, JsonValue)>, key: String, value: JsonValue)
    ensures
        json_members(final(members)@) == json_members(old(members)@).insert(key@, value@),
{
    match last_member_index(members, key.as_str()) {
        Some(i) => {
            proof {
                lemma_member_update(members@, i as int, (key, value));
            }
            members.set(i, (key, value));
        },
        None => {
            members.push((key, value));
            assert(members@.drop_last() =~= old(members)@);
        },
    }
}

/// Within the member `outer`, where it is an object, set the member `key` to
/// `value`. Returns whether `outer` was such an object.
pub fn set_nested_member(
    members: &mut Vec<(String, JsonValue)>,
    outer: &str,
    key: String,
    value: JsonValue,
) -> (found: bool)
    ensures
        found == (json_members(old(members)@).contains_key(outer@) && json_members(
            old(members)@,
        )[outer@] is Object),
        json_members(final(members)@) == with_nested_member(
            json_members(old(members)@),
            outer@,
            key@,
            value@,
        ),
{
    match last_member_index(members, outer) {
        Some(i) => {
            proof {
                lemma_member_lookup(members@, outer@, i as int);
            }
            let is_object = match &members[i].1 {
                JsonValue::Object(_) => true,
                _ => false,
            };
            if !is_object {
                return false;
            }
            let ghost before = members@;
            let (name, v) = members.remove(i);
            match v {
                JsonValue::Object(mut inner) => {
                    let ghost inner_before = inner@;
                    set_member(&mut inner, key, value);
                    let e = (name, JsonValue::Object(inner));
                    proof {
                        lemma_member_update(before, i as int, e);
                    }
                    members.insert(i, e);
                    assert(members@ =~= before.update(i as int, e));
                },
                other => {
                    members.insert(i, (name, other));
                },
            }
            true
        },
        None => {
            proof {
                lemma_member_absent(members@, outer@);
            }
            false
        },
    }
}

/// `serde_json::Value`, the document tree that `serde_json` parses into and
/// prints from.
#[verifier::external_type_specification]
#[verifier::external_body]
pub struct ExJsonValue(serde_json::Value);

/// `serde_json::Number`, a number inside a `serde_json::Value`.
#[verifier::external_type_specification]
#[verifier::external_body]
pub struct ExJsonNumber(serde_json::Number);

/// The document that `serde_json::from_str::<serde_json::Value>` reads from
/// `text`, or `None` where it reports an error.
pub uninterp spec fn json_parse(text: Seq<char>) -> Option<Json>;

/// The text that `serde_json::to_string_pretty` writes for the value of shape
/// `v`, or `None` where it, or the conversion of a float's text, reports an
/// error.
pub uninterp spec fn json_pretty(v: JsonTree) -> Option<Seq<char>>;

/// Parse `text` as one JSON document with `serde_json::from_str` into a
/// `serde_json::Value`, converted member for member into a `JsonValue` (a
/// float keeps the shortest text that `serde_json` prints for it).
/// Claimed: the result is `Ok` exactly where `json_parse` gives a document,
/// and then its view is that document. On failure the error is the parser's
/// message, of which nothing is claimed.
#[verifier::external_body]
pub(crate) fn parse_json(text: &str) -> (r: Result<JsonValue, String>)
    ensures
        r is Ok <==> json_parse(text@) is Some,
        r matches Ok(v) ==> json_parse(text@) == Some(v@),
{
    match serde_json::from_str::<Value>(text) {
        Ok(v) => Ok(from_serde(v)),
        Err(e) => Err(e.to_string()),
    }
}

/// Print `v` with `serde_json::to_string_pretty`, after converting it into a
/// `serde_json::Value`: members are inserted in order into `serde_json`'s map,
/// so of members with the same name the last one stays; a float's text is read
/// with the standard library's exact float parser.
/// Claimed: the result is `Ok` exactly where `json_pretty` gives a text for
/// the tree of `v`, and then it is that text; and a value that `prints_back`
/// within the parser's depth limit prints, and parses back from the text to
/// its own view (the printer escapes every string and writes every integer in
/// full). On failure the error is the
/// float parser's message, of which nothing is claimed. The conversion and
/// the printer recurse once per level of nesting and set no bound of their own.
#[verifier::external_body]
pub(crate) fn pretty_json(v: &JsonValue) -> (r: Result<String, String>)
    ensures
        r is Ok <==> json_pretty(json_tree(*v)) is Some,
        r matches Ok(t) ==> json_pretty(json_tree(*v)) == Some(t@),
        prints_back(*v, parse_depth_limit()) ==> r is Ok,
        r matches Ok(t) ==> (prints_back(*v, parse_depth_limit()) ==> json_parse(t@) == Some(v@)),
{
    let value = match to_serde(v) {
        Ok(value) => value,
        Err(e) => return Err(e),
    };
    match serde_json::to_string_pretty(&value) {
        Ok(t) => Ok(t),
        Err(e) => Err(e.to_string()),
    }
}

/// Converts a `serde_json::Value` into a `JsonValue`, variant for variant, for
/// `parse_json`; an object's members come in the order of `serde_json`'s map.
#[verifier::external_body]
fn from_serde(v: Value) -> JsonValue {
    match v {
        Value::Null => JsonValue::Null,
        Value::Bool(b) => JsonValue::Bool(b),
        Value::Number(n) => JsonValue::Number(from_serde_number(&n)),
        Value::String(t) => JsonValue::Str(t),
        Value::Array(items) => JsonValue::Array(items.into_iter().map(from_serde).collect()),
        Value::Object(members) => JsonValue::Object(
            members.into_iter().map(|(k, v)| (k, from_serde(v))).collect(),
        ),
    }
}

/// Converts a `serde_json::Number` into a `JsonNumber`: its three forms are
/// told apart by `as_u64` (only a non-negative integer has one) and `as_i64`
/// (then only a negative integer has one); a float keeps its printed text.
#[verifier::external_body]
fn from_serde_number(n: &Number) -> JsonNumber {
    match (n.as_u64(), n.as_i64()) {
        (Some(u), _) => JsonNumber::PosInt(u),
        (None, Some(i)) => JsonNumber::NegInt(i),
        (None, None) => JsonNumber::Float(n.to_string()),
    }
}

/// Converts a `JsonValue` into a `serde_json::Value`, variant for variant, for
/// `pretty_json`; members are inserted into the map in order.
#[verifier::external_body]
fn to_serde(v: &JsonValue) -> Result<Value, String> {
    Ok(match v {
        JsonValue::Null => Value::Null,
        JsonValue::Bool(b) => Value::Bool(*b),
        JsonValue::Number(n) => to_serde_number(n)?,
        JsonValue::Str(t) => Value::String(t.clone()),
        JsonValue::Array(items) => Value::Array(items.iter().map(to_serde).collect::<Result<_, _>>()?),
        JsonValue::Object(members) => {
            let mut map = serde_json::Map::new();
            for (k, m) in members {
                map.insert(k.clone(), to_serde(m)?);
            }
            Value::Object(map)
        },
    })
}

/// Converts a `JsonNumber` into a `serde_json::Value` with `serde_json`'s own
/// conversions; a float's text is read with the standard library's parser and
/// converted as `serde_json`'s `From` for floats does (a non-finite one is `Null`).
#[verifier::external_body]
fn to_serde_number(n: &JsonNumber) -> Result<Value, String> {
    match n {
        JsonNumber::PosInt(u) => Ok(Value::from(*u)),
        JsonNumber::NegInt(i) => Ok(Value::from(*i)),
        JsonNumber::Float(t) => match t.parse() {
            Ok(x) => Ok(Number::from_f64(x).map_or(Value::Null, Value::Number)),
            Err(e) => Err(e.to_string()),
        },
    }
}

} // verus!
