//! JSON values.
//!
//! Request bodies are built, and response bodies are read, as trees of
//! `JsonValue`. Turning text into a tree and a tree into text is the work of
//! `serde_json`; everything that looks into a tree is done here.
use serde_json::{Number, Value};
use vstd::prelude::*;
use crate::text::{same_text, text_view};

verus! {

/// The largest count that the 32-bit fields of the API's values can hold.
pub const MAX_COUNT: u64 = 0xFFFF_FFFF;

/// A JSON value as a tree of plain values.
#[derive(Debug, PartialEq, Eq)]
pub enum JsonValue {
    Null,
    Bool(bool),
    /// A number without fraction or exponent.
    Integer(i128),
    /// Any other number, as its JSON text.
    Real(String),
    Text(String),
    Array(Vec<JsonValue>),
    /// The members of an object, in the order in which they were added. Where
    /// a name occurs twice, the later member is the one that counts.
    Object(Vec<(String, JsonValue)>),
}

/// What a `JsonValue` stands for.
pub enum Json {
    Null,
    Bool(bool),
    Integer(int),
    Real(Seq<char>),
    Text(Seq<char>),
    Array(Seq<Json>),
    Object(Seq<(Seq<char>, Json)>),
}

impl View for JsonValue {
    type V = Json;

    open spec fn view(&self) -> Json
        decreases self,
    {
        match self {
            JsonValue::Null => Json::Null,
            JsonValue::Bool(b) => Json::Bool(*b),
            JsonValue::Integer(i) => Json::Integer(*i as int),
            JsonValue::Real(t) => Json::Real(t@),
            JsonValue::Text(t) => Json::Text(t@),
            JsonValue::Array(items) => Json::Array(
                Seq::new(
                    items.len() as nat,
                    |i: int|
                        if 0 <= i < items.len() {
                            items[i]@
                        } else {
                            Json::Null
                        },
                ),
            ),
            JsonValue::Object(members) => Json::Object(
                Seq::new(
                    members.len() as nat,
                    |i: int|
                        if 0 <= i < members.len() {
                            (members[i].0@, members[i].1@)
                        } else {
                            (Seq::empty(), Json::Null)
                        },
                ),
            ),
        }
    }
}

/// What the items of a sequence stand for, item by item.
pub open spec fn views<T: View>(items: Seq<T>) -> Seq<T::V> {
    Seq::new(items.len(), |i: int| items[i]@)
}

/// The views of a sequence of members, member by member.
pub open spec fn members_view(members: Seq<(String, JsonValue)>) -> Seq<(Seq<char>, Json)> {
    Seq::new(members.len(), |i: int| (members[i].0@, members[i].1@))
}

/// The view of an array is the views of its items.
pub proof fn lemma_array_view(items: Vec<JsonValue>)
    ensures
        JsonValue::Array(items)@ == Json::Array(views(items@)),
{
    let v = JsonValue::Array(items);
    assert(items.len() == items@.len());
    assert(v@->Array_0 =~= views(items@));
}

/// The view of an object is the views of its members.
pub proof fn lemma_object_view(members: Vec<(String, JsonValue)>)
    ensures
        JsonValue::Object(members)@ == Json::Object(members_view(members@)),
{
    let v = JsonValue::Object(members);
    assert(members.len() == members@.len());
    reveal_with_fuel(<JsonValue as View>::view, 2);
    let shown = v@->Object_0;
    assert(shown.len() == members@.len());
    assert forall|i: int| 0 <= i < shown.len() implies shown[i] == members_view(members@)[i] by {
        assert(shown[i] == (members[i].0@, members[i].1@));
    }
    assert(shown =~= members_view(members@));
}

/// The value of the last of the first `upto` members that is named `name`.
pub open spec fn lookup_in(members: Seq<(Seq<char>, Json)>, name: Seq<char>, upto: int) -> Option<
    Json,
>
    decreases upto,
{
    if upto <= 0 || upto > members.len() {
        None
    } else if members[upto - 1].0 == name {
        Some(members[upto - 1].1)
    } else {
        lookup_in(members, name, upto - 1)
    }
}

/// Whether every one of some values can be written.
pub open spec fn items_printable(items: Seq<Json>) -> bool {
    forall|k: int| 0 <= k < items.len() ==> (#[trigger] items[k]).printable()
}

/// Whether the value of every one of some members can be written.
pub open spec fn members_printable(members: Seq<(Seq<char>, Json)>) -> bool {
    forall|k: int| 0 <= k < members.len() ==> (#[trigger] members[k]).1.printable()
}

impl Json {
    /// Whether the value can be written as JSON text for certain: every
    /// number in it is an integer from -2^63 to 2^64 - 1.
    pub open spec fn printable(self) -> bool
        decreases self,
    {
        match self {
            Json::Integer(i) => -0x8000_0000_0000_0000 <= i <= 0xFFFF_FFFF_FFFF_FFFF,
            Json::Real(_) => false,
            Json::Array(items) => forall|k: int|
                0 <= k < items.len() ==> (#[trigger] items[k]).printable(),
            Json::Object(members) => forall|k: int|
                0 <= k < members.len() ==> (#[trigger] members[k]).1.printable(),
            _ => true,
        }
    }

    /// The member `name` of an object: the last one of that name. `None` for
    /// an object without such a member and for what is no object.
    pub open spec fn member(self, name: Seq<char>) -> Option<Json> {
        match self {
            Json::Object(members) => lookup_in(members, name, members.len() as int),
            _ => None,
        }
    }

    /// The text of the member `name`, if it is there and is a string.
    pub open spec fn text_member(self, name: Seq<char>) -> Option<Seq<char>> {
        match self.member(name) {
            Some(Json::Text(t)) => Some(t),
            _ => None,
        }
    }

    /// The member `name` where it may be left out: `Some(None)` where it is
    /// missing or null, `Some(Some(..))` where it is a string, `None` where it
    /// is anything else.
    pub open spec fn optional_text_member(self, name: Seq<char>) -> Option<Option<Seq<char>>> {
        match self.member(name) {
            None => Some(None),
            Some(Json::Null) => Some(None),
            Some(Json::Text(t)) => Some(Some(t)),
            _ => None,
        }
    }

    /// The number of the member `name`, if it is there and is an integer from
    /// 0 to `max`.
    pub open spec fn count_member(self, name: Seq<char>, max: int) -> Option<int> {
        match self.member(name) {
            Some(Json::Integer(i)) => if 0 <= i <= max {
                Some(i)
            } else {
                None
            },
            _ => None,
        }
    }

    /// The truth value of the member `name`, if it is there and is one.
    pub open spec fn bool_member(self, name: Seq<char>) -> Option<bool> {
        match self.member(name) {
            Some(Json::Bool(b)) => Some(b),
            _ => None,
        }
    }

    /// The member `name` where it may be left out: `Some(None)` where it is
    /// missing or null, `Some(Some(..))` where it is a truth value, `None`
    /// where it is anything else.
    pub open spec fn optional_bool_member(self, name: Seq<char>) -> Option<Option<bool>> {
        match self.member(name) {
            None => Some(None),
            Some(Json::Null) => Some(None),
            Some(Json::Bool(b)) => Some(Some(b)),
            _ => None,
        }
    }

    /// The items of the member `name`, if it is there and is an array.
    pub open spec fn array_member(self, name: Seq<char>) -> Option<Seq<Json>> {
        match self.member(name) {
            Some(Json::Array(items)) => Some(items),
            _ => None,
        }
    }
}

impl JsonValue {
    /// The member `name` of an object: the last one of that name.
    pub fn get(&self, name: &str) -> (r: Option<&JsonValue>)
        ensures
            match r {
                Some(v) => self@.member(name@) == Some(v@),
                None => self@.member(name@) is None,
            },
    {
        match self {
            JsonValue::Object(members) => {
                proof {
                    lemma_object_view(*members);
                }
                let ghost all = members_view(members@);
                let mut i: usize = members.len();
                while i > 0
                    invariant
                        i <= members.len(),
                        all == members_view(members@),
                        self@ == Json::Object(all),
                        lookup_in(all, name@, all.len() as int) == lookup_in(all, name@, i as int),
                    decreases i,
                {
                    i = i - 1;
                    assert(all[i as int] == (members@[i as int].0@, members@[i as int].1@));
                    if same_text(members[i].0.as_str(), name) {
                        return Some(&members[i].1);
                    }
                }
                None
            },
            _ => None,
        }
    }

    /// The text of the member `name`, if it is there and is a string.
    pub fn get_text(&self, name: &str) -> (r: Option<&str>)
        ensures
            match r {
                Some(t) => self@.text_member(name@) == Some(t@),
                None => self@.text_member(name@) is None,
            },
    {
        match self.get(name) {
            Some(JsonValue::Text(t)) => Some(t.as_str()),
            _ => None,
        }
    }

    /// The member `name` where it may be left out: missing and null both
    /// read as `None`. `Err` where the member is there and is no string.
    pub fn get_optional_text(&self, name: &str) -> (r: Result<Option<&str>, ()>)
        ensures
            match r {
                Ok(Some(t)) => self@.optional_text_member(name@) == Some(Some(t@)),
                Ok(None) => self@.optional_text_member(name@) == Some(None::<Seq<char>>),
                Err(_) => self@.optional_text_member(name@) is None,
            },
    {
        match self.get(name) {
            None => Ok(None),
            Some(JsonValue::Null) => Ok(None),
            Some(JsonValue::Text(t)) => Ok(Some(t.as_str())),
            _ => Err(()),
        }
    }

    /// The number of the member `name`, if it is there and is an integer
    /// from 0 to `max`.
    pub fn get_count(&self, name: &str, max: u64) -> (r: Option<u64>)
        ensures
            match r {
                Some(n) => self@.count_member(name@, max as int) == Some(n as int),
                None => self@.count_member(name@, max as int) is None,
            },
    {
        match self.get(name) {
            Some(JsonValue::Integer(i)) => {
                if 0 <= *i && *i <= max as i128 {
                    Some(*i as u64)
                } else {
                    None
                }
            },
            _ => None,
        }
    }

    /// The truth value of the member `name`, if it is there and is one.
    pub fn get_bool(&self, name: &str) -> (r: Option<bool>)
        ensures
            r == self@.bool_member(name@),
    {
        match self.get(name) {
            Some(JsonValue::Bool(b)) => Some(*b),
            _ => None,
        }
    }

    /// The member `name` where it may be left out: missing and null both
    /// read as `None`. `Err` where the member is there and is no truth value.
    pub fn get_optional_bool(&self, name: &str) -> (r: Result<Option<bool>, ()>)
        ensures
            match r {
                Ok(b) => self@.optional_bool_member(name@) == Some(b),
                Err(_) => self@.optional_bool_member(name@) is None,
            },
    {
        match self.get(name) {
            None => Ok(None),
            Some(JsonValue::Null) => Ok(None),
            Some(JsonValue::Bool(b)) => Ok(Some(*b)),
            _ => Err(()),
        }
    }

    /// The items of the member `name`, if it is there and is an array.
    pub fn get_array(&self, name: &str) -> (r: Option<&Vec<JsonValue>>)
        ensures
            match r {
                Some(items) => self@.array_member(name@) == Some(views(items@)),
                None => self@.array_member(name@) is None,
            },
    {
        match self.get(name) {
            Some(JsonValue::Array(items)) => {
                proof {
                    lemma_array_view(*items);
                }
                Some(items)
            },
            _ => None,
        }
    }
}

#[verifier::external_type_specification]
#[verifier::external_body]
pub struct ExJsonTree(Value);

/// What `serde_json::from_str` makes of a text: the value that it reads, or
/// the message of the error that it reports.
pub uninterp spec fn json_document(text: Seq<char>) -> Result<Json, Seq<char>>;

/// The text that `serde_json::to_string` writes for a value; `None` for a
/// value that holds a number which `serde_json` cannot hold.
pub uninterp spec fn json_rendering(value: Json) -> Option<Seq<char>>;

/// What a parse result stands for.
pub open spec fn parsed_view(r: Result<JsonValue, String>) -> Result<Json, Seq<char>> {
    match r {
        Ok(v) => Ok(v@),
        Err(m) => Err(m@),
    }
}

/// Moves a `serde_json::Value` into a `JsonValue`, variant by variant. A
/// number becomes `Integer` where `Number::as_i128` gives one, and `Real` with
/// the number's own text otherwise.
#[verifier::external_body]
fn from_outside(value: Value) -> (r: JsonValue) {
    match value {
        Value::Null => JsonValue::Null,
        Value::Bool(b) => JsonValue::Bool(b),
        Value::Number(n) => match n.as_i128() {
            Some(i) => JsonValue::Integer(i),
            None => JsonValue::Real(n.to_string()),
        },
        Value::String(t) => JsonValue::Text(t),
        Value::Array(a) => JsonValue::Array(a.into_iter().map(from_outside).collect()),
        Value::Object(m) => JsonValue::Object(
            m.into_iter().map(|(k, v)| (k, from_outside(v))).collect(),
        ),
    }
}

/// Copies a `JsonValue` into a `serde_json::Value`, variant by variant.
/// `None` where `Number::from_i128` or `Number::from_str` refuses a number.
#[verifier::external_body]
fn to_outside(value: &JsonValue) -> (r: Option<Value>) {
    Some(
        match value {
            JsonValue::Null => Value::Null,
            JsonValue::Bool(b) => Value::Bool(*b),
            JsonValue::Integer(i) => Value::Number(Number::from_i128(*i)?),
            JsonValue::Real(t) => Value::Number(t.parse().ok()?),
            JsonValue::Text(t) => Value::String(t.clone()),
            JsonValue::Array(a) => Value::Array(a.iter().map(to_outside).collect::<Option<_>>()?),
            JsonValue::Object(m) => Value::Object(
                m.iter().map(|(k, v)| Some((k.clone(), to_outside(v)?))).collect::<Option<_>>()?,
            ),
        },
    )
}

/// Calls `serde_json::from_str` for a `serde_json::Value` and hands the value
/// on as a `JsonValue`, or the error as its message. The contract gives the
/// outcome its name and claims nothing else.
#[verifier::external_body]
fn read_document(text: &str) -> (r: Result<JsonValue, String>)
    ensures
        parsed_view(r) == json_document(text@),
{
    match serde_json::from_str::<Value>(text) {
        Ok(value) => Ok(from_outside(value)),
        Err(e) => Err(e.to_string()),
    }
}

/// Calls `serde_json::to_string` on the `serde_json::Value` that a
/// `JsonValue` copies to. The contract gives the outcome its name, and claims
/// that a text comes out where every number is an integer that
/// `Number::from_i128` takes: `to_string` then writes into a vector of bytes
/// a value whose keys are strings, and fails on neither.
#[verifier::external_body]
fn write_document(value: &JsonValue) -> (r: Option<String>)
    ensures
        text_view(r) == json_rendering(value@),
        value@.printable() ==> r is Some,
{
    serde_json::to_string(&to_outside(value)?).ok()
}

impl JsonValue {
    /// Reads a JSON text.
    pub fn parse(text: &str) -> (r: Result<JsonValue, String>)
        ensures
            parsed_view(r) == json_document(text@),
    {
        read_document(text)
    }

    /// Writes this value as JSON text, without line breaks or indentation.
    /// `None` where the value holds a number that JSON text cannot express.
    pub fn to_text(&self) -> (r: Option<String>)
        ensures
            text_view(r) == json_rendering(self@),
            self@.printable() ==> r is Some,
    {
        write_document(self)
    }

    /// The JSON string with the characters of `text`.
    pub fn text(text: &str) -> (r: JsonValue)
        ensures
            r@ == Json::Text(text@),
            r@.printable(),
    {
        JsonValue::Text(text.to_owned())
    }

    /// The JSON number `n`.
    pub fn count(n: u64) -> (r: JsonValue)
        ensures
            r@ == Json::Integer(n as int),
            r@.printable(),
    {
        JsonValue::Integer(n as i128)
    }
}

/// Adds the member `name` with the value `value` behind the others.
pub fn add_member(members: &mut Vec<(String, JsonValue)>, name: &str, value: JsonValue)
    ensures
        members_view(final(members)@) == members_view(old(members)@).push((name@, value@)),
        members_printable(members_view(old(members)@)) && value@.printable() ==> members_printable(
            members_view(final(members)@),
        ),
{
    members.push((name.to_owned(), value));
    assert(members_view(members@) =~= members_view(old(members)@).push((name@, value@)));
}

/// Adds the item `value` behind the others.
pub fn add_item(items: &mut Vec<JsonValue>, value: JsonValue)
    ensures
        views(final(items)@) == views(old(items)@).push(value@),
        items_printable(views(old(items)@)) && value@.printable() ==> items_printable(
            views(final(items)@),
        ),
{
    items.push(value);
    assert(views(items@) =~= views(old(items)@).push(value@));
}

/// The object with the members `members`.
pub fn object_of(members: Vec<(String, JsonValue)>) -> (r: JsonValue)
    ensures
        r@ == Json::Object(members_view(members@)),
        members_printable(members_view(members@)) ==> r@.printable(),
{
    proof {
        lemma_object_view(members);
    }
    JsonValue::Object(members)
}

/// The array with the items `items`.
pub fn array_of(items: Vec<JsonValue>) -> (r: JsonValue)
    ensures
        r@ == Json::Array(views(items@)),
        items_printable(views(items@)) ==> r@.printable(),
{
    proof {
        lemma_array_view(items);
    }
    JsonValue::Array(items)
}

/// The member added last is the one found under its name, and every other
/// name finds what it found before.
pub proof fn lemma_member_push(members: Seq<(Seq<char>, Json)>, name: Seq<char>, value: Json)
    ensures
        Json::Object(members.push((name, value))).member(name) == Some(value),
        forall|other: Seq<char>|
            other != name ==> #[trigger] Json::Object(members.push((name, value))).member(other)
                == Json::Object(members).member(other),
{
    let all = members.push((name, value));
    assert forall|other: Seq<char>| other != name implies #[trigger] Json::Object(all).member(
        other,
    ) == Json::Object(members).member(other) by {
        lemma_lookup_prefix(members, all, other, members.len() as int);
    }
}

/// Looking among the first `upto` members sees nothing of what follows them.
pub proof fn lemma_lookup_prefix(
    a: Seq<(Seq<char>, Json)>,
    b: Seq<(Seq<char>, Json)>,
    name: Seq<char>,
    upto: int,
)
    requires
        0 <= upto <= a.len() <= b.len(),
        forall|i: int| 0 <= i < upto ==> a[i] == b[i],
    ensures
        lookup_in(a, name, upto) == lookup_in(b, name, upto),
    decreases upto,
{
    if upto > 0 {
        lemma_lookup_prefix(a, b, name, upto - 1);
    }
}

/// `members` with the member `name` behind them where `value` holds one.
pub open spec fn with_optional(
    members: Seq<(Seq<char>, Json)>,
    name: Seq<char>,
    value: Option<Json>,
) -> Seq<(Seq<char>, Json)> {
    match value {
        Some(v) => members.push((name, v)),
        None => members,
    }
}

/// The JSON string of an optional text.
pub open spec fn optional_json(text: Option<Seq<char>>) -> Option<Json> {
    match text {
        Some(t) => Some(Json::Text(t)),
        None => None,
    }
}

/// The JSON truth value of an optional one.
pub open spec fn optional_bool_json(value: Option<bool>) -> Option<Json> {
    match value {
        Some(b) => Some(Json::Bool(b)),
        None => None,
    }
}

/// The JSON string of an optional text.
pub open spec fn optional_text_json(value: Option<String>) -> Option<Json> {
    match value {
        Some(t) => Some(Json::Text(t@)),
        None => None,
    }
}

/// Adds the string member `name` behind the others where `value` holds a
/// text; adds nothing where it holds none.
pub fn add_optional_text(members: &mut Vec<(String, JsonValue)>, name: &str, value: &Option<String>)
    ensures
        members_view(final(members)@) == with_optional(
            members_view(old(members)@),
            name@,
            optional_text_json(*value),
        ),
        members_printable(members_view(old(members)@)) ==> members_printable(
            members_view(final(members)@),
        ),
{
    match value {
        Some(t) => {
            add_member(members, name, JsonValue::text(t.as_str()));
        },
        None => {},
    }
}

/// An optional member that is added is the one found under its name; one
/// that is left out leaves what was found before; and every other name finds
/// what it found before.
pub proof fn lemma_with_optional(members: Seq<(Seq<char>, Json)>, name: Seq<char>, value: Option<Json>)
    ensures
        Json::Object(with_optional(members, name, value)).member(name) == (match value {
            Some(v) => Some(v),
            None => Json::Object(members).member(name),
        }),
        forall|other: Seq<char>|
            other != name ==> #[trigger] Json::Object(with_optional(members, name, value)).member(
                other,
            ) == Json::Object(members).member(other),
{
    if let Some(v) = value {
        lemma_member_push(members, name, v);
    }
}

/// A type whose values are read from JSON.
pub trait FromJson: View + Sized {
    /// The value that a JSON value describes, if it describes one.
    spec fn of_json(j: Json) -> Option<Self::V>;

    /// Reads a value; `None` where the JSON value describes none.
    fn from_json(v: &JsonValue) -> (r: Option<Self>)
        ensures
            match r {
                Some(x) => Self::of_json(v@) == Some(x@),
                None => Self::of_json(v@) is None,
            },
    ;
}

/// A type whose values are written as JSON.
pub trait ToJson: View + Sized {
    /// The JSON that a value is written as.
    spec fn json(v: Self::V) -> Json;

    /// Writes the value as JSON that can be written as text for certain.
    fn to_json(&self) -> (r: JsonValue)
        ensures
            r@ == Self::json(self@),
            r@.printable(),
    ;
}

/// The values that a sequence of JSON values describes, if every one of
/// them describes a value.
pub open spec fn all_of_json<T: FromJson>(items: Seq<Json>) -> Option<Seq<T::V>> {
    if forall|i: int| 0 <= i < items.len() ==> (#[trigger] T::of_json(items[i])) is Some {
        Some(Seq::new(items.len(), |i: int| T::of_json(items[i])->0))
    } else {
        None
    }
}

/// The JSON of every value of a sequence.
pub open spec fn all_json<T: ToJson>(items: Seq<T::V>) -> Seq<Json> {
    Seq::new(items.len(), |i: int| T::json(items[i]))
}

/// Reads a list of values; `None` where an item describes none.
pub fn all_from_json<T: FromJson>(items: &Vec<JsonValue>) -> (r: Option<Vec<T>>)
    ensures
        match r {
            Some(list) => all_of_json::<T>(views(items@)) == Some(views(list@)),
            None => all_of_json::<T>(views(items@)) is None,
        },
{
    let ghost shown = views(items@);
    let mut list: Vec<T> = Vec::new();
    let mut i: usize = 0;
    while i < items.len()
        invariant
            i <= items.len(),
            shown == views(items@),
            list@.len() == i,
            forall|k: int| 0 <= k < i ==> (#[trigger] T::of_json(shown[k])) == Some(list@[k]@),
        decreases items.len() - i,
    {
        assert(shown[i as int] == items@[i as int]@);
        match T::from_json(&items[i]) {
            Some(item) => {
                list.push(item);
            },
            None => {
                assert(T::of_json(shown[i as int]) is None);
                return None;
            },
        }
        i = i + 1;
    }
    assert(all_of_json::<T>(shown)->0 =~= views(list@));
    Some(list)
}

/// Writes a list of values as a JSON array.
pub fn all_to_json<T: ToJson>(items: &Vec<T>) -> (r: JsonValue)
    ensures
        r@ == Json::Array(all_json::<T>(views(items@))),
        r@.printable(),
{
    let mut out: Vec<JsonValue> = Vec::new();
    let mut i: usize = 0;
    while i < items.len()
        invariant
            i <= items.len(),
            views(out@).len() == i,
            items_printable(views(out@)),
            forall|k: int| 0 <= k < i ==> (#[trigger] views(out@)[k]) == T::json(items@[k]@),
        decreases items.len() - i,
    {
        add_item(&mut out, items[i].to_json());
        i = i + 1;
    }
    assert(views(out@) =~= all_json::<T>(views(items@)));
    array_of(out)
}

/// A type whose values are read back from what they are written as.
///
/// Such a type writes an object with its members in the order of their
/// names and with no name twice, which is the form in which the JSON reader
/// hands an object out.
pub trait RoundTrip: FromJson + ToJson {
    /// Whether what a value stands for fits the wire. Every value does.
    spec fn fits_wire(v: Self::V) -> bool;

    /// What is written is read back field for field: a field that was set
    /// comes back with its value, one that was not set comes back not set.
    proof fn lemma_round_trip(v: Self::V)
        requires
            Self::fits_wire(v),
        ensures
            Self::of_json(Self::json(v)) == Some(v),
    ;

    /// What a value stands for fits the wire.
    proof fn lemma_fits_wire(&self)
        ensures
            Self::fits_wire(self@),
    ;
}

/// Whether every item of a sequence fits the wire.
pub open spec fn all_fit_wire<T: RoundTrip>(items: Seq<T::V>) -> bool {
    forall|i: int| 0 <= i < items.len() ==> T::fits_wire(#[trigger] items[i])
}

/// Values that are written as a list are read back as that list.
pub proof fn lemma_all_round_trip<T: RoundTrip>(items: Seq<T::V>)
    requires
        all_fit_wire::<T>(items),
    ensures
        all_of_json::<T>(all_json::<T>(items)) == Some(items),
{
    let written = all_json::<T>(items);
    assert forall|i: int| 0 <= i < written.len() implies (#[trigger] T::of_json(written[i])) == Some(
        items[i],
    ) by {
        assert(written[i] == T::json(items[i]));
        T::lemma_round_trip(items[i]);
    }
    assert(all_of_json::<T>(written)->0 =~= items);
}

/// The items of a list of values fit the wire.
pub proof fn lemma_all_fit_wire<T: RoundTrip>(items: Seq<T>)
    ensures
        all_fit_wire::<T>(views(items)),
{
    assert forall|i: int| 0 <= i < items.len() implies T::fits_wire(#[trigger] views(items)[i]) by {
        items[i].lemma_fits_wire();
    }
}

} // verus!
