//! JSON values as the engine sees them.
//!
//! A value is held as plain data: a number by its canonical text, an
//! object as the list of its members. Reading a text and writing a value
//! out are done by `serde_json`.

use vstd::prelude::*;

verus! {

/// The mathematical model of a JSON value.
pub enum JsonValue {
    /// `null`.
    Null,
    /// `true` or `false`.
    Bool(bool),
    /// A number, by its canonical text.
    Number(Seq<char>),
    /// A string.
    String(Seq<char>),
    /// An array.
    Array(Seq<JsonValue>),
    /// An object, as its members in order.
    Object(Seq<(Seq<char>, JsonValue)>),
}

/// A JSON value.
#[derive(Debug)]
pub enum Json {
    /// `null`.
    Null,
    /// `true` or `false`.
    Bool(bool),
    /// A number, by its canonical text. Two numbers are equal where their
    /// texts are.
    Number(String),
    /// A string.
    String(String),
    /// An array.
    Array(Vec<Json>),
    /// An object, as its members in order. A key is looked up from the
    /// front.
    Object(Vec<(String, Json)>),
}

/// The model of a held value.
pub open spec fn model(j: Json) -> JsonValue
    decreases j,
{
    match j {
        Json::Null => JsonValue::Null,
        Json::Bool(b) => JsonValue::Bool(b),
        Json::Number(n) => JsonValue::Number(n@),
        Json::String(s) => JsonValue::String(s@),
        Json::Array(items) => JsonValue::Array(
            Seq::new(
                items@.len(),
                |i: int|
                    if 0 <= i < items@.len() {
                        model(items@[i])
                    } else {
                        JsonValue::Null
                    },
            ),
        ),
        Json::Object(members) => JsonValue::Object(
            Seq::new(
                members@.len(),
                |i: int|
                    if 0 <= i < members@.len() {
                        (members@[i].0@, model(members@[i].1))
                    } else {
                        (Seq::empty(), JsonValue::Null)
                    },
            ),
        ),
    }
}

impl View for Json {
    type V = JsonValue;

    open spec fn view(&self) -> JsonValue {
        model(*self)
    }
}

/// The value of the first member of `members` whose key is `key`.
pub open spec fn lookup(members: Seq<(Seq<char>, JsonValue)>, key: Seq<char>) -> Option<JsonValue>
    decreases members.len(),
{
    if members.len() == 0 {
        None
    } else if members[0].0 == key {
        Some(members[0].1)
    } else {
        lookup(members.drop_first(), key)
    }
}

/// The member `key` of `v`, where `v` is an object that has one.
pub open spec fn member(v: JsonValue, key: Seq<char>) -> Option<JsonValue> {
    match v {
        JsonValue::Object(members) => lookup(members, key),
        _ => None,
    }
}

/// The element `i` of `v`, where `v` is an array that has one.
pub open spec fn element(v: JsonValue, i: int) -> Option<JsonValue> {
    match v {
        JsonValue::Array(items) => if 0 <= i < items.len() {
            Some(items[i])
        } else {
            None
        },
        _ => None,
    }
}

/// Whether no two members of `members` have the same key.
pub open spec fn distinct_keys(members: Seq<(Seq<char>, JsonValue)>) -> bool {
    forall|i: int, j: int|
        0 <= i < j < members.len() ==> (#[trigger] members[i]).0 != (#[trigger] members[j]).0
}

/// Whether every object in `v` has distinct keys.
pub open spec fn well_formed(v: JsonValue) -> bool
    decreases v,
{
    match v {
        JsonValue::Array(items) => forall|i: int|
            0 <= i < items.len() ==> well_formed(#[trigger] items[i]),
        JsonValue::Object(members) => distinct_keys(members) && forall|i: int|
            0 <= i < members.len() ==> well_formed((#[trigger] members[i]).1),
        _ => true,
    }
}

/// Whether `v` is a scalar: neither an array nor an object.
pub open spec fn is_scalar(v: JsonValue) -> bool {
    !(v is Array) && !(v is Object)
}

/// What `serde_json::from_str` makes of a text: the value it reads, or
/// nothing where the text is not one JSON value.
pub uninterp spec fn parsed(text: Seq<char>) -> Option<JsonValue>;

/// The message with which `serde_json::from_str` refuses a text that is
/// not one JSON value.
pub uninterp spec fn parse_failure(text: Seq<char>) -> Seq<char>;

/// The compact text that `serde_json` writes for a value.
pub uninterp spec fn compact(v: JsonValue) -> Seq<char>;

/// The indented text that `serde_json` writes for a value: what
/// `Display` gives in its alternate form, which is what
/// `serde_json::to_string_pretty` gives.
pub uninterp spec fn pretty(v: JsonValue) -> Seq<char>;

/// What a `serde_json::Value` holds.
pub uninterp spec fn held(value: serde_json::Value) -> JsonValue;

/// The text that `ToString::to_string` gives for a `serde_json::Value`.
pub uninterp spec fn written(value: serde_json::Value) -> Seq<char>;

/// The text that `Display` in its alternate form gives for a
/// `serde_json::Value`.
pub uninterp spec fn written_indented(value: serde_json::Value) -> Seq<char>;

/// The text that `Display` gives for a `serde_json::Error`.
pub uninterp spec fn message(e: serde_json::Error) -> Seq<char>;

#[verifier::external_type_specification]
#[verifier::external_body]
pub struct ExValue(serde_json::Value);

#[verifier::external_type_specification]
#[verifier::external_body]
pub struct ExError(serde_json::Error);

/// `serde_json::from_str` for a `serde_json::Value`. Whether a value is
/// read, which one, and the message of the error where none is, are
/// functions of the text alone. A value that was read has distinct keys
/// in every object, since `serde_json` holds an object as a map.
#[verifier::external_body]
fn read_value(text: &str) -> (r: Result<serde_json::Value, serde_json::Error>)
    ensures
        match r {
            Ok(value) => parsed(text@) == Some(held(value)) && well_formed(held(value)),
            Err(e) => parsed(text@) is None && message(e) == parse_failure(text@),
        },
{
    serde_json::from_str::<serde_json::Value>(text)
}

/// `ToString::to_string` of a `serde_json::Error`.
#[verifier::external_body]
fn message_of(e: &serde_json::Error) -> (r: String)
    ensures
        r@ == message(*e),
{
    e.to_string()
}

/// Copies a `serde_json::Value` into a `Json`, variant by variant: a
/// number by `Number::to_string`, the members of an object in the order
/// in which the map hands them out.
#[verifier::external_body]
fn from_value(value: &serde_json::Value) -> (r: Json)
    ensures
        r@ == held(*value),
{
    match value {
        serde_json::Value::Null => Json::Null,
        serde_json::Value::Bool(b) => Json::Bool(*b),
        serde_json::Value::Number(n) => Json::Number(n.to_string()),
        serde_json::Value::String(s) => Json::String(s.clone()),
        serde_json::Value::Array(items) => Json::Array(items.iter().map(from_value).collect()),
        serde_json::Value::Object(map) => Json::Object(
            map.iter().map(|(k, v)| (k.clone(), from_value(v))).collect(),
        ),
    }
}

/// Copies a `Json` into a `serde_json::Value`, variant by variant: a
/// number by `str::parse`, which gives `null` for a text that is no
/// number; the members of an object by `Map::insert`, from the last to
/// the first, so that of two members with one key the first stays. The
/// texts that `serde_json` writes for the copy are what is called the
/// compact and the indented text of the value.
#[verifier::external_body]
fn to_value(j: &Json) -> (r: serde_json::Value)
    ensures
        written(r) == compact(j@),
        written_indented(r) == pretty(j@),
{
    match j {
        Json::Null => serde_json::Value::Null,
        Json::Bool(b) => serde_json::Value::Bool(*b),
        Json::Number(n) => n.parse().map_or(serde_json::Value::Null, serde_json::Value::Number),
        Json::String(s) => serde_json::Value::String(s.clone()),
        Json::Array(items) => serde_json::Value::Array(items.iter().map(to_value).collect()),
        Json::Object(members) => serde_json::Value::Object(
            members.iter().rev().map(|(k, v)| (k.clone(), to_value(v))).collect(),
        ),
    }
}

/// `ToString::to_string` of a `serde_json::Value`, which writes the
/// compact form.
#[verifier::external_body]
fn write_compact(value: &serde_json::Value) -> (r: String)
    ensures
        r@ == written(*value),
{
    value.to_string()
}

/// `Display::fmt` of a `serde_json::Value` in its alternate form, which
/// writes the indented form.
#[verifier::external_body]
fn write_indented(value: &serde_json::Value) -> (r: String)
    ensures
        r@ == written_indented(*value),
{
    format!("{:#}", value)
}

impl Json {
    /// Reads one JSON value from `text`. The error holds the message of
    /// the parser.
    pub fn parse(text: &str) -> (r: Result<Json, String>)
        ensures
            match r {
                Ok(j) => parsed(text@) == Some(j@) && well_formed(j@),
                Err(msg) => parsed(text@) is None && msg@ == parse_failure(text@),
            },
    {
        match read_value(text) {
            Ok(value) => Ok(from_value(&value)),
            Err(e) => Err(message_of(&e)),
        }
    }

    /// The compact text of the value.
    pub fn to_compact(&self) -> (r: String)
        ensures
            r@ == compact(self@),
    {
        let value = to_value(self);
        write_compact(&value)
    }

    /// The indented text of the value.
    pub fn to_pretty(&self) -> (r: String)
        ensures
            r@ == pretty(self@),
    {
        let value = to_value(self);
        write_indented(&value)
    }

    /// Whether the value is `null`.
    pub fn is_null(&self) -> (r: bool)
        ensures
            r == (self@ is Null),
    {
        match self {
            Json::Null => true,
            _ => false,
        }
    }

    /// Whether the value is an object.
    pub fn is_object(&self) -> (r: bool)
        ensures
            r == (self@ is Object),
    {
        match self {
            Json::Object(_) => true,
            _ => false,
        }
    }

    /// Whether the value is an array.
    pub fn is_array(&self) -> (r: bool)
        ensures
            r == (self@ is Array),
    {
        match self {
            Json::Array(_) => true,
            _ => false,
        }
    }

    /// The member `key` of an object.
    pub fn get(&self, key: &str) -> (r: Option<&Json>)
        ensures
            match r {
                Some(j) => member(self@, key@) == Some(j@),
                None => member(self@, key@) is None,
            },
    {
        match self {
            Json::Object(members) => {
                let ghost all = self@->Object_0;
                let n: usize = members.len();
                let mut i: usize = 0;
                assert(all.skip(0) =~= all);
                while i < n
                    invariant
                        n == members.len(),
                        i <= n,
                        all.len() == n,
                        self@ == JsonValue::Object(all),
                        forall|k: int|
                            0 <= k < n ==> #[trigger] all[k] == (members@[k].0@, members@[k].1@),
                        lookup(all, key@) == lookup(all.skip(i as int), key@),
                    decreases n - i,
                {
                    proof {
                        assert(all.skip(i as int).drop_first() =~= all.skip(i + 1));
                        assert(all.skip(i as int)[0] == all[i as int]);
                    }
                    if same_key(&members[i].0, key) {
                        return Some(&members[i].1);
                    }
                    i += 1;
                }
                None
            },
            _ => None,
        }
    }

    /// The element `i` of an array.
    pub fn at(&self, i: usize) -> (r: Option<&Json>)
        ensures
            match r {
                Some(j) => element(self@, i as int) == Some(j@),
                None => element(self@, i as int) is None,
            },
    {
        match self {
            Json::Array(items) => if i < items.len() {
                Some(&items[i])
            } else {
                None
            },
            _ => None,
        }
    }

    /// Whether a scalar `self` equals `other`. An array or an object as
    /// `self` equals nothing here.
    pub fn scalar_equals(&self, other: &Json) -> (r: bool)
        ensures
            is_scalar(self@) ==> r == (self@ == other@),
            !is_scalar(self@) ==> !r,
    {
        match (self, other) {
            (Json::Null, Json::Null) => true,
            (Json::Bool(a), Json::Bool(b)) => *a == *b,
            (Json::Number(a), Json::Number(b)) => same_key(a, b.as_str()),
            (Json::String(a), Json::String(b)) => same_key(a, b.as_str()),
            _ => false,
        }
    }
}

/// Whether a held text equals `key`.
fn same_key(held: &String, key: &str) -> (r: bool)
    ensures
        r == (held@ == key@),
{
    crate::text::same_text(held.as_str(), key)
}

/// A member that `lookup` finds is one of the members.
pub proof fn lemma_lookup_found(members: Seq<(Seq<char>, JsonValue)>, key: Seq<char>)
    ensures
        match lookup(members, key) {
            Some(v) => exists|i: int|
                0 <= i < members.len() && (#[trigger] members[i]) == (key, v) && forall|k: int|
                    0 <= k < i ==> (#[trigger] members[k]).0 != key,
            None => forall|i: int| 0 <= i < members.len() ==> (#[trigger] members[i]).0 != key,
        },
    decreases members.len(),
{
    if members.len() == 0 {
    } else if members[0].0 == key {
        assert(members[0] == (key, members[0].1));
    } else {
        let rest = members.drop_first();
        lemma_lookup_found(rest, key);
        match lookup(rest, key) {
            Some(v) => {
                let i = choose|i: int|
                    0 <= i < rest.len() && (#[trigger] rest[i]) == (key, v) && forall|k: int|
                        0 <= k < i ==> (#[trigger] rest[k]).0 != key;
                assert(members[i + 1] == rest[i]);
                assert forall|k: int| 0 <= k < i + 1 implies (#[trigger] members[k]).0 != key by {
                    if k > 0 {
                        assert(members[k] == rest[k - 1]);
                    }
                }
            },
            None => {
                assert forall|i: int| 0 <= i < members.len() implies (#[trigger] members[i]).0
                    != key by {
                    if i > 0 {
                        assert(members[i] == rest[i - 1]);
                    }
                }
            },
        }
    }
}

/// Among distinct keys, `lookup` finds each member under its own key.
pub proof fn lemma_lookup_own(members: Seq<(Seq<char>, JsonValue)>, i: int)
    requires
        distinct_keys(members),
        0 <= i < members.len(),
    ensures
        lookup(members, members[i].0) == Some(members[i].1),
    decreases i,
{
    if i > 0 {
        let rest = members.drop_first();
        assert forall|a: int, b: int| 0 <= a < b < rest.len() implies (#[trigger] rest[a]).0 != (
        #[trigger] rest[b]).0 by {
            assert(rest[a] == members[a + 1]);
            assert(rest[b] == members[b + 1]);
        }
        assert(rest[i - 1] == members[i]);
        lemma_lookup_own(rest, i - 1);
    }
}

} // verus!
