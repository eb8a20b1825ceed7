//! A model of JSON documents and the readings the flows take from them.

use vstd::prelude::*;
use crate::text::same_text;

verus! {

/// A JSON value. A number that fits a signed 64-bit integer is held as
/// that integer; any other number is carried as the text it is written
/// with, so that no value is altered by being read and written back.
#[derive(Debug, PartialEq, Eq)]
pub enum Json {
    Null,
    Bool(bool),
    Int(i64),
    Real(String),
    Text(String),
    Array(Vec<Json>),
    Object(Vec<(String, Json)>),
}

/// The mathematical content of a [`Json`] value.
pub enum JsonView {
    Null,
    Bool(bool),
    Int(i64),
    Real(Seq<char>),
    Text(Seq<char>),
    Array(Seq<JsonView>),
    Object(Seq<(Seq<char>, JsonView)>),
}

/// The first value filed under `key` in a sequence of object members.
pub open spec fn lookup(members: Seq<(Seq<char>, JsonView)>, key: Seq<char>) -> Option<JsonView>
    decreases members.len(),
{
    if members.len() == 0 {
        None
    } else if members[0].0 == key {
        Some(members[0].1)
    } else {
        lookup(members.drop_first(), key)
    }
}

/// A member whose key is met first at position `i` is the one found.
pub proof fn lemma_lookup_at(members: Seq<(Seq<char>, JsonView)>, key: Seq<char>, i: int)
    requires
        0 <= i < members.len(),
        members[i].0 == key,
        forall|j: int| 0 <= j < i ==> members[j].0 != key,
    ensures
        lookup(members, key) == Some(members[i].1),
    decreases i,
{
    if i > 0 {
        let rest = members.drop_first();
        assert forall|j: int| 0 <= j < i - 1 implies rest[j].0 != key by {
            assert(rest[j] == members[j + 1]);
        }
        lemma_lookup_at(rest, key, i - 1);
    }
}

/// A key that no member carries is not found.
pub proof fn lemma_lookup_none(members: Seq<(Seq<char>, JsonView)>, key: Seq<char>)
    requires
        forall|j: int| 0 <= j < members.len() ==> members[j].0 != key,
    ensures
        lookup(members, key) is None,
    decreases members.len(),
{
    if members.len() > 0 {
        let rest = members.drop_first();
        assert forall|j: int| 0 <= j < rest.len() implies rest[j].0 != key by {
            assert(rest[j] == members[j + 1]);
        }
        lemma_lookup_none(rest, key);
    }
}

impl JsonView {
    /// The member of an object filed under `key`; nothing for a missing
    /// key and for a value that is no object.
    pub open spec fn member(self, key: Seq<char>) -> Option<JsonView> {
        match self {
            JsonView::Object(members) => lookup(members, key),
            _ => None,
        }
    }

    /// The text of a JSON string; nothing for any other value.
    pub open spec fn text(self) -> Option<Seq<char>> {
        match self {
            JsonView::Text(t) => Some(t),
            _ => None,
        }
    }

    /// The integer of a JSON number that fits 64 signed bits; nothing for
    /// any other value.
    pub open spec fn integer(self) -> Option<i64> {
        match self {
            JsonView::Int(i) => Some(i),
            _ => None,
        }
    }

    /// Whether every number in the value is held as an integer: there is
    /// no [`JsonView::Real`] in it.
    pub open spec fn integral(self) -> bool
        decreases self,
    {
        match self {
            JsonView::Real(_) => false,
            JsonView::Array(items) => forall|i: int|
                0 <= i < items.len() ==> (#[trigger] items[i]).integral(),
            JsonView::Object(members) => forall|i: int|
                0 <= i < members.len() ==> (#[trigger] members[i]).1.integral(),
            _ => true,
        }
    }

    /// The text filed under `key`, where there is such a member and it is
    /// a JSON string.
    pub open spec fn text_at(self, key: Seq<char>) -> Option<Seq<char>> {
        match self.member(key) {
            Some(j) => j.text(),
            None => None,
        }
    }

    /// The integer filed under `key`, where there is such a member and it
    /// is a number that fits 64 signed bits.
    pub open spec fn integer_at(self, key: Seq<char>) -> Option<i64> {
        match self.member(key) {
            Some(j) => j.integer(),
            None => None,
        }
    }

    /// An optional text filed under `key`: a member that is absent or
    /// `null` reads as no text. The outer `None` marks a member of
    /// another kind.
    pub open spec fn optional_text_at(self, key: Seq<char>) -> Option<Option<Seq<char>>> {
        match self.member(key) {
            None => Some(None),
            Some(JsonView::Null) => Some(None),
            Some(JsonView::Text(t)) => Some(Some(t)),
            Some(_) => None,
        }
    }

    /// An optional integer filed under `key`: a member that is absent or
    /// `null` reads as no integer. The outer `None` marks a member that
    /// is no number fitting 64 signed bits.
    pub open spec fn optional_integer_at(self, key: Seq<char>) -> Option<Option<i64>> {
        match self.member(key) {
            None => Some(None),
            Some(JsonView::Null) => Some(None),
            Some(JsonView::Int(i)) => Some(Some(i)),
            Some(_) => None,
        }
    }
}

/// The views of a vector's values, in order.
pub open spec fn items_view(items: Seq<Json>) -> Seq<JsonView>
    decreases items,
{
    Seq::new(
        items.len(),
        |i: int|
            if 0 <= i < items.len() {
                items[i]@
            } else {
                JsonView::Null
            },
    )
}

/// The views of an object's members, in order.
pub open spec fn members_view(members: Seq<(String, Json)>) -> Seq<(Seq<char>, JsonView)>
    decreases members,
{
    Seq::new(
        members.len(),
        |i: int|
            if 0 <= i < members.len() {
                (members[i].0@, members[i].1@)
            } else {
                (Seq::empty(), JsonView::Null)
            },
    )
}

impl View for Json {
    type V = JsonView;

    open spec fn view(&self) -> JsonView
        decreases self,
    {
        match self {
            Json::Null => JsonView::Null,
            Json::Bool(b) => JsonView::Bool(*b),
            Json::Int(i) => JsonView::Int(*i),
            Json::Real(t) => JsonView::Real(t@),
            Json::Text(t) => JsonView::Text(t@),
            Json::Array(items) => JsonView::Array(items_view(items@)),
            Json::Object(members) => JsonView::Object(members_view(members@)),
        }
    }
}

/// The content of a value that may be missing.
pub open spec fn view_of(v: Option<Json>) -> Option<JsonView> {
    match v {
        Some(j) => Some(j@),
        None => None,
    }
}

/// The content of a borrowed value that may be missing.
pub open spec fn view_of_ref(v: Option<&Json>) -> Option<JsonView> {
    match v {
        Some(j) => Some(j@),
        None => None,
    }
}

impl Json {
    /// The member filed under `key`, if this is an object that has one.
    /// Where a key occurs more than once, the first member counts.
    #[verifier::loop_isolation(false)]
    pub fn get(&self, key: &str) -> (r: Option<&Json>)
        ensures
            view_of_ref(r) == self@.member(key@),
    {
        match self {
            Json::Object(members) => {
                let mut i: usize = 0;
                assert(members_view(members@).skip(0) =~= members_view(members@));
                while i < members.len()
                    invariant
                        i <= members.len(),
                        lookup(members_view(members@), key@) == lookup(
                            members_view(members@).skip(i as int),
                            key@,
                        ),
                    decreases members.len() - i,
                {
                    let ghost rest = members_view(members@).skip(i as int);
                    assert(rest[0] == (members@[i as int].0@, members@[i as int].1@));
                    assert(rest.drop_first() =~= members_view(members@).skip(i + 1));
                    if same_text(members[i].0.as_str(), key) {
                        return Some(&members[i].1);
                    }
                    i += 1;
                }
                None
            },
            _ => None,
        }
    }

    /// The text of a JSON string.
    pub fn as_str(&self) -> (r: Option<&str>)
        ensures
            r.deep_view() == self@.text(),
    {
        match self {
            Json::Text(t) => Some(t.as_str()),
            _ => None,
        }
    }

    /// The integer of a JSON number, where it fits 64 signed bits.
    pub fn as_i64(&self) -> (r: Option<i64>)
        ensures
            r == self@.integer(),
    {
        match self {
            Json::Int(i) => Some(*i),
            _ => None,
        }
    }

    /// The text filed under `key`, if there is one.
    pub fn str_at(&self, key: &str) -> (r: Option<&str>)
        ensures
            r.deep_view() == self@.text_at(key@),
    {
        match self.get(key) {
            Some(j) => j.as_str(),
            None => None,
        }
    }

    /// The integer filed under `key`, if there is one.
    pub fn i64_at(&self, key: &str) -> (r: Option<i64>)
        ensures
            r == self@.integer_at(key@),
    {
        match self.get(key) {
            Some(j) => j.as_i64(),
            None => None,
        }
    }

    /// The optional text filed under `key`; the outer `None` marks a
    /// member that is neither absent, `null` nor a text.
    pub fn optional_str_at(&self, key: &str) -> (r: Option<Option<&str>>)
        ensures
            r.deep_view() == self@.optional_text_at(key@),
    {
        match self.get(key) {
            None => Some(None),
            Some(Json::Null) => Some(None),
            Some(Json::Text(t)) => Some(Some(t.as_str())),
            Some(_) => None,
        }
    }

    /// The optional integer filed under `key`; the outer `None` marks a
    /// member that is neither absent, `null` nor an integer.
    pub fn optional_i64_at(&self, key: &str) -> (r: Option<Option<i64>>)
        ensures
            r == self@.optional_integer_at(key@),
    {
        match self.get(key) {
            None => Some(None),
            Some(Json::Null) => Some(None),
            Some(Json::Int(i)) => Some(Some(*i)),
            Some(_) => None,
        }
    }

    /// Whether this is the JSON `null`.
    pub fn is_null(&self) -> (r: bool)
        ensures
            r == (self@ == JsonView::Null),
    {
        match self {
            Json::Null => true,
            _ => false,
        }
    }

    /// A copy with the same content.
    #[verifier::loop_isolation(false)]
    pub fn duplicate(&self) -> (r: Json)
        ensures
            r@ == self@,
        decreases self,
    {
        match self {
            Json::Null => Json::Null,
            Json::Bool(b) => Json::Bool(*b),
            Json::Int(i) => Json::Int(*i),
            Json::Real(t) => Json::Real(t.clone()),
            Json::Text(t) => Json::Text(t.clone()),
            Json::Array(items) => {
                let mut out: Vec<Json> = Vec::new();
                let mut i: usize = 0;
                while i < items.len()
                    invariant
                        i <= items.len(),
                        out@.len() == i,
                        forall|k: int| 0 <= k < i ==> (#[trigger] out@[k])@ == items@[k]@,
                    decreases items.len() - i,
                {
                    let copy = items[i].duplicate();
                    out.push(copy);
                    i += 1;
                }
                assert(items_view(out@) =~= items_view(items@));
                Json::Array(out)
            },
            Json::Object(members) => {
                let mut out: Vec<(String, Json)> = Vec::new();
                let mut i: usize = 0;
                while i < members.len()
                    invariant
                        i <= members.len(),
                        out@.len() == i,
                        forall|k: int|
                            0 <= k < i ==> (#[trigger] out@[k]).0@ == members@[k].0@ && out@[k].1@
                                == members@[k].1@,
                    decreases members.len() - i,
                {
                    let copy = members[i].1.duplicate();
                    out.push((members[i].0.clone(), copy));
                    i += 1;
                }
                assert(members_view(out@) =~= members_view(members@));
                Json::Object(out)
            },
        }
    }
}

impl Clone for Json {
    fn clone(&self) -> (r: Json)
        ensures
            r@ == self@,
    {
        self.duplicate()
    }
}

/// `serde_json::Value`, of which nothing is known here: a value of it is
/// only handed between `serde_json` and the two conversions below.
#[verifier::external_type_specification]
#[verifier::external_body]
pub struct ExValue(serde_json::Value);

/// What `serde_json` reads from a text: the value it stands for, or nothing
/// where the text is not one JSON document.
pub uninterp spec fn parsed(text: Seq<char>) -> Option<JsonView>;

/// The text `serde_json` writes for a value, indented for reading; nothing
/// where the value holds a [`Json::Real`] whose text is no JSON number.
pub uninterp spec fn rendered(value: JsonView) -> Option<Seq<char>>;

/// Moves a `serde_json::Value` into the model, variant by variant. A number
/// is told apart by `Number::as_i64`; one that has no such reading is
/// carried over as the text `serde_json` prints for it.
#[verifier::external_body]
fn from_value(v: serde_json::Value) -> Json {
    match v {
        serde_json::Value::Null => Json::Null,
        serde_json::Value::Bool(b) => Json::Bool(b),
        serde_json::Value::Number(n) => match n.as_i64() {
            Some(i) => Json::Int(i),
            None => Json::Real(n.to_string()),
        },
        serde_json::Value::String(s) => Json::Text(s),
        serde_json::Value::Array(a) => Json::Array(a.into_iter().map(from_value).collect()),
        serde_json::Value::Object(m) => Json::Object(
            m.into_iter().map(|(k, c)| (k, from_value(c))).collect(),
        ),
    }
}

/// Moves a value of the model into a `serde_json::Value`, variant by
/// variant; `None` where a [`Json::Real`] holds a text that `serde_json`
/// does not read as a number.
#[verifier::external_body]
fn to_value(j: &Json) -> Option<serde_json::Value> {
    Some(match j {
        Json::Null => serde_json::Value::Null,
        Json::Bool(b) => serde_json::Value::Bool(*b),
        Json::Int(i) => serde_json::Value::Number((*i).into()),
        Json::Real(t) => serde_json::Value::Number(t.parse().ok()?),
        Json::Text(s) => serde_json::Value::String(s.clone()),
        Json::Array(a) => serde_json::Value::Array(a.iter().map(to_value).collect::<Option<_>>()?),
        Json::Object(m) => serde_json::Value::Object(
            m.iter().map(|(k, c)| Some((k.clone(), to_value(c)?))).collect::<Option<_>>()?,
        ),
    })
}

/// Calls `serde_json::from_str`. The result is the value that the text
/// stands for, and `None` where `serde_json` rejects the text.
#[verifier::external_body]
fn serde_parse(text: &str) -> (r: Option<Json>)
    ensures
        view_of(r) == parsed(text@),
{
    match serde_json::from_str::<serde_json::Value>(text) {
        Ok(v) => Some(from_value(v)),
        Err(_) => None,
    }
}

/// Calls `serde_json::to_string_pretty`. The result is the indented text of
/// the value, and `None` where the value cannot be written, which takes
/// a [`Json::Real`] in it.
#[verifier::external_body]
fn serde_render(value: &Json) -> (r: Option<String>)
    ensures
        r.deep_view() == rendered(value@),
        value@.integral() ==> r.is_some(),
{
    match to_value(value) {
        Some(v) => serde_json::to_string_pretty(&v).ok(),
        None => None,
    }
}

/// Reads a text as one JSON document; `None` where it is none.
pub fn parse(text: &str) -> (r: Option<Json>)
    ensures
        view_of(r) == parsed(text@),
{
    serde_parse(text)
}

/// Writes a value as indented text; `None` where it holds a
/// [`Json::Real`] whose text is no JSON number.
pub fn render(value: &Json) -> (r: Option<String>)
    ensures
        r.deep_view() == rendered(value@),
        value@.integral() ==> r.is_some(),
{
    serde_render(value)
}

} // verus!
