//! JSON values: the tree that the rules read and build, and its text.

use vstd::prelude::*;

use crate::text::{decimal_digits, text_eq};

verus! {

/// `serde_json::Value`, known to the conversions below alone.
#[verifier::external_type_specification]
#[verifier::external_body]
pub struct ExValue(serde_json::Value);

/// `serde_json::Number`, carried unread from a parsed value to a written one.
#[verifier::external_type_specification]
#[verifier::external_body]
pub struct ExNumber(serde_json::Number);

/// A JSON number: the number as the parser keeps it, and the text that it is written
/// as. The two always belong together: the fields are private, and only `json_of`,
/// `integer` and `copy_number` fill them, each with a number and that number's text.
pub struct JsonNumber {
    number: serde_json::Number,
    text: String,
}

impl View for JsonNumber {
    type V = Seq<char>;

    closed spec fn view(&self) -> Seq<char> {
        self.text@
    }
}

/// A JSON value. An object is the list of its members.
pub enum Json {
    Null,
    Bool(bool),
    Number(JsonNumber),
    Text(String),
    Array(Vec<Json>),
    Object(Vec<(String, Json)>),
}

/// What a JSON value says.
#[verifier::ext_equal]
pub enum JsonView {
    Null,
    Bool(bool),
    Number(Seq<char>),
    Text(Seq<char>),
    Array(Seq<JsonView>),
    Object(Seq<(Seq<char>, JsonView)>),
}

pub open spec fn json_view(v: Json) -> JsonView
    decreases v,
{
    match v {
        Json::Null => JsonView::Null,
        Json::Bool(b) => JsonView::Bool(b),
        Json::Number(n) => JsonView::Number(n@),
        Json::Text(t) => JsonView::Text(t@),
        Json::Array(items) => JsonView::Array(json_views(items@)),
        Json::Object(members) => JsonView::Object(member_views(members@)),
    }
}

pub open spec fn json_views(items: Seq<Json>) -> Seq<JsonView>
    decreases items,
{
    if items.len() == 0 {
        Seq::empty()
    } else {
        json_views(items.drop_last()).push(json_view(items.last()))
    }
}

pub open spec fn member_views(members: Seq<(String, Json)>) -> Seq<(Seq<char>, JsonView)>
    decreases members,
{
    if members.len() == 0 {
        Seq::empty()
    } else {
        member_views(members.drop_last()).push((members.last().0@, json_view(members.last().1)))
    }
}

impl View for Json {
    type V = JsonView;

    open spec fn view(&self) -> JsonView {
        json_view(*self)
    }
}

pub proof fn json_views_index(items: Seq<Json>)
    ensures
        json_views(items).len() == items.len(),
        forall|i: int| 0 <= i < items.len() ==> #[trigger] json_views(items)[i] == items[i]@,
    decreases items.len(),
{
    if items.len() > 0 {
        json_views_index(items.drop_last());
        assert forall|i: int| 0 <= i < items.len() implies #[trigger] json_views(items)[i]
            == items[i]@ by {
            if i < items.len() - 1 {
                assert(json_views(items.drop_last())[i] == items.drop_last()[i]@);
            }
        }
    }
}

pub proof fn member_views_index(members: Seq<(String, Json)>)
    ensures
        member_views(members).len() == members.len(),
        forall|i: int|
            0 <= i < members.len() ==> #[trigger] member_views(members)[i] == (
                members[i].0@,
                members[i].1@,
            ),
    decreases members.len(),
{
    if members.len() > 0 {
        member_views_index(members.drop_last());
        assert forall|i: int| 0 <= i < members.len() implies #[trigger] member_views(members)[i]
            == (members[i].0@, members[i].1@) by {
            if i < members.len() - 1 {
                assert(member_views(members.drop_last())[i] == (
                    members.drop_last()[i].0@,
                    members.drop_last()[i].1@,
                ));
            }
        }
    }
}

pub open spec fn option_json(v: Option<Json>) -> Option<JsonView> {
    match v {
        Some(v) => Some(v@),
        None => None,
    }
}

/// The JSON value that bytes spell, where they spell one.
pub uninterp spec fn parsed_json(bytes: Seq<u8>) -> Option<JsonView>;

/// Calls `serde_json::from_slice` for a `serde_json::Value`. The contract names the
/// result: nothing, where the bytes are not one JSON value, or the value.
#[verifier::external_body]
pub(crate) fn parse_json(bytes: &[u8]) -> (r: Option<Json>)
    ensures
        option_json(r) == parsed_json(bytes@),
{
    serde_json::from_slice::<serde_json::Value>(bytes).ok().map(json_of)
}

/// Turns a `serde_json::Value` into a `Json`, node for node. A number is kept as it
/// is beside its text.
#[verifier::external_body]
pub(crate) fn json_of(value: serde_json::Value) -> (r: Json) {
    match value {
        serde_json::Value::Null => Json::Null,
        serde_json::Value::Bool(b) => Json::Bool(b),
        serde_json::Value::Number(n) => {
            Json::Number(JsonNumber { text: n.to_string(), number: n })
        },
        serde_json::Value::String(t) => Json::Text(t),
        serde_json::Value::Array(items) => Json::Array(items.into_iter().map(json_of).collect()),
        serde_json::Value::Object(members) => {
            Json::Object(members.into_iter().map(|(k, v)| (k, json_of(v))).collect())
        },
    }
}

/// Turns a `Json` into a `serde_json::Value`, node for node.
#[verifier::external_body]
pub(crate) fn value_of(value: &Json) -> (r: serde_json::Value) {
    match value {
        Json::Null => serde_json::Value::Null,
        Json::Bool(b) => serde_json::Value::Bool(*b),
        Json::Number(n) => serde_json::Value::Number(n.number.clone()),
        Json::Text(t) => serde_json::Value::String(t.clone()),
        Json::Array(items) => serde_json::Value::Array(items.iter().map(value_of).collect()),
        Json::Object(members) => {
            serde_json::Value::Object(
                members.iter().map(|(k, v)| (k.clone(), value_of(v))).collect(),
            )
        },
    }
}

/// The compact text of a JSON value.
pub uninterp spec fn compact_json(value: JsonView) -> Seq<char>;

/// Calls `serde_json::Value::to_string`, which writes the value compactly. The
/// contract names the result. A number is written as its text, which is what the view
/// keeps of it.
#[verifier::external_body]
pub(crate) fn write_compact(value: &Json) -> (r: String)
    ensures
        r@ == compact_json(value@),
{
    value_of(value).to_string()
}

/// The indented text of a JSON value.
pub uninterp spec fn pretty_json(value: JsonView) -> Option<Seq<char>>;

/// Calls `serde_json::to_string_pretty`. The contract names the result: the text, or
/// nothing where the value could not be written. A number is written as its text, which
/// is what the view keeps of it.
#[verifier::external_body]
pub(crate) fn write_pretty(value: &Json) -> (r: Option<String>)
    ensures
        crate::text::option_text(r) == pretty_json(value@),
{
    serde_json::to_string_pretty(&value_of(value)).ok()
}

/// An integer in decimal, with a minus sign where it is negative.
pub open spec fn integer_text(n: int) -> Seq<char> {
    if n < 0 {
        seq!['-'] + decimal_digits((-n) as nat)
    } else {
        decimal_digits(n as nat)
    }
}

/// Calls `serde_json::Number::from` on an integer and takes its text, which is the
/// integer in decimal.
#[verifier::external_body]
pub(crate) fn integer(n: i64) -> (r: JsonNumber)
    ensures
        r@ == integer_text(n as int),
{
    let number = serde_json::Number::from(n);
    JsonNumber { text: number.to_string(), number }
}

/// The member of an object with the given key, of the first such where there are
/// several; nothing for any other value.
pub open spec fn member(value: JsonView, key: Seq<char>) -> Option<JsonView> {
    match value {
        JsonView::Object(members) => member_at(members, key, 0),
        _ => None,
    }
}

pub open spec fn member_at(members: Seq<(Seq<char>, JsonView)>, key: Seq<char>, from: int) -> Option<
    JsonView,
>
    decreases members.len() - from,
{
    if from < 0 || from >= members.len() {
        None
    } else if members[from].0 == key {
        Some(members[from].1)
    } else {
        member_at(members, key, from + 1)
    }
}

/// The member with the given key, `null` where there is none.
pub open spec fn member_or_null(value: JsonView, key: Seq<char>) -> JsonView {
    match member(value, key) {
        Some(v) => v,
        None => JsonView::Null,
    }
}

pub open spec fn text_of(value: JsonView) -> Option<Seq<char>> {
    match value {
        JsonView::Text(t) => Some(t),
        _ => None,
    }
}

pub open spec fn bool_of(value: JsonView) -> Option<bool> {
    match value {
        JsonView::Bool(b) => Some(b),
        _ => None,
    }
}

/// The text of an optional value, empty where it is no text.
pub open spec fn text_or_empty(value: Option<JsonView>) -> Seq<char> {
    match value {
        Some(JsonView::Text(t)) => t,
        _ => Seq::empty(),
    }
}

impl Json {
    /// The member of an object with the given key.
    pub fn get(&self, key: &str) -> (r: Option<&Json>)
        ensures
            match r {
                Some(v) => member(self@, key@) == Some(v@),
                None => member(self@, key@) is None,
            },
            r matches Some(v) ==> decreases_to!(*self => *v),
    {
        match self {
            Json::Object(members) => {
                let mut i: usize = 0;
                proof {
                    member_views_index(members@);
                }
                while i < members.len()
                    invariant
                        i <= members@.len(),
                        *self == Json::Object(*members),
                        member_views(members@).len() == members@.len(),
                        forall|j: int|
                            0 <= j < members@.len() ==> #[trigger] member_views(members@)[j] == (
                                members@[j].0@,
                                members@[j].1@,
                            ),
                        member(self@, key@) == member_at(member_views(members@), key@, i as int),
                    decreases members@.len() - i,
                {
                    assert(member_views(members@)[i as int].0 == members@[i as int].0@);
                    if text_eq(members[i].0.as_str(), key) {
                        let found = &members[i].1;
                        assert(decreases_to!(*self => *members));
                        assert(decreases_to!(*members => members@));
                        assert(decreases_to!(members@ => members@[i as int]));
                        assert(decreases_to!(members@[i as int] => members@[i as int].1));
                        return Some(found);
                    }
                    i = i + 1;
                }
                None
            },
            _ => None,
        }
    }

    /// The text of a text value.
    pub fn as_text(&self) -> (r: Option<&String>)
        ensures
            match r {
                Some(t) => text_of(self@) == Some(t@),
                None => text_of(self@) is None,
            },
    {
        match self {
            Json::Text(t) => Some(t),
            _ => None,
        }
    }

    /// The truth value of a boolean.
    pub fn as_bool(&self) -> (r: Option<bool>)
        ensures
            r == bool_of(self@),
    {
        match self {
            Json::Bool(b) => Some(*b),
            _ => None,
        }
    }

    /// The text of the member with the given key; empty where it is missing or no text.
    pub fn text_member(&self, key: &str) -> (r: String)
        ensures
            r@ == text_or_empty(member(self@, key@)),
    {
        match self.get(key) {
            Some(Json::Text(t)) => t.clone(),
            _ => String::new(),
        }
    }

    /// The value that bytes spell; nothing where they are not one JSON value.
    pub fn parse(bytes: &[u8]) -> (r: Option<Json>)
        ensures
            option_json(r) == parsed_json(bytes@),
    {
        parse_json(bytes)
    }

    /// The value as compact text.
    pub fn to_text(&self) -> (r: String)
        ensures
            r@ == compact_json(self@),
    {
        write_compact(self)
    }

    /// A copy of the value.
    pub fn copy(&self) -> (r: Json)
        ensures
            r@ == self@,
        decreases self,
    {
        match self {
            Json::Null => Json::Null,
            Json::Bool(b) => Json::Bool(*b),
            Json::Number(n) => Json::Number(copy_number(n)),
            Json::Text(t) => Json::Text(t.clone()),
            Json::Array(items) => {
                let mut out: Vec<Json> = Vec::new();
                let mut i: usize = 0;
                assert(items@.take(0) =~= Seq::<Json>::empty());
                while i < items.len()
                    invariant
                        i <= items@.len(),
                        *self == Json::Array(*items),
                        json_views(out@) == json_views(items@.take(i as int)),
                    decreases items@.len() - i,
                {
                    assert(decreases_to!(*self => self->Array_0));
                    assert(decreases_to!(*items => items@));
                    assert(decreases_to!(items@ => items@[i as int]));
                    let item = items[i].copy();
                    let ghost before = out@;
                    out.push(item);
                    assert(out@.drop_last() =~= before);
                    assert(items@.take(i + 1).drop_last() =~= items@.take(i as int));
                    i = i + 1;
                }
                assert(items@.take(items@.len() as int) =~= items@);
                Json::Array(out)
            },
            Json::Object(members) => {
                let mut out: Vec<(String, Json)> = Vec::new();
                let mut i: usize = 0;
                assert(members@.take(0) =~= Seq::<(String, Json)>::empty());
                while i < members.len()
                    invariant
                        i <= members@.len(),
                        *self == Json::Object(*members),
                        member_views(out@) == member_views(members@.take(i as int)),
                    decreases members@.len() - i,
                {
                    assert(decreases_to!(*self => self->Object_0));
                    assert(decreases_to!(*members => members@));
                    assert(decreases_to!(members@ => members@[i as int]));
                    assert(decreases_to!(members@[i as int] => members@[i as int].1));
                    let item = members[i].1.copy();
                    let key = members[i].0.clone();
                    let ghost before = out@;
                    out.push((key, item));
                    assert(out@.drop_last() =~= before);
                    assert(members@.take(i + 1).drop_last() =~= members@.take(i as int));
                    i = i + 1;
                }
                assert(members@.take(members@.len() as int) =~= members@);
                Json::Object(out)
            },
        }
    }
}

/// The members with one more at the end.
pub fn add_member(members: &mut Vec<(String, Json)>, key: &str, value: Json)
    ensures
        member_views(final(members)@) == member_views(old(members)@).push((key@, value@)),
{
    let ghost before = members@;
    members.push((key.to_owned(), value));
    assert(members@.drop_last() =~= before);
}

/// The items with one more at the end.
pub fn add_item(items: &mut Vec<Json>, value: Json)
    ensures
        json_views(final(items)@) == json_views(old(items)@).push(value@),
{
    let ghost before = items@;
    items.push(value);
    assert(items@.drop_last() =~= before);
}

/// The place of the first member with the given key, or the number of members.
pub open spec fn key_place(members: Seq<(Seq<char>, JsonView)>, key: Seq<char>, from: int) -> int
    decreases members.len() - from,
{
    if from < 0 || from >= members.len() {
        members.len() as int
    } else if members[from].0 == key {
        from
    } else {
        key_place(members, key, from + 1)
    }
}

/// The members with the value under a key set: in the place of the one it had, or at
/// the end.
pub open spec fn with_member(
    members: Seq<(Seq<char>, JsonView)>,
    key: Seq<char>,
    value: JsonView,
) -> Seq<(Seq<char>, JsonView)> {
    let at = key_place(members, key, 0);
    if at < members.len() {
        members.update(at, (key, value))
    } else {
        members.push((key, value))
    }
}

/// Sets the value under a key.
pub fn set_member(members: &mut Vec<(String, Json)>, key: String, value: Json)
    ensures
        member_views(final(members)@) == with_member(member_views(old(members)@), key@, value@),
{
    let mut i: usize = 0;
    proof {
        member_views_index(members@);
    }
    while i < members.len()
        invariant
            i <= members@.len(),
            *members == *old(members),
            member_views(members@).len() == members@.len(),
            forall|j: int|
                0 <= j < members@.len() ==> #[trigger] member_views(members@)[j] == (
                    members@[j].0@,
                    members@[j].1@,
                ),
            key_place(member_views(members@), key@, 0) == key_place(
                member_views(members@),
                key@,
                i as int,
            ),
        decreases members@.len() - i,
    {
        assert(member_views(members@)[i as int].0 == members@[i as int].0@);
        if text_eq(members[i].0.as_str(), key.as_str()) {
            let ghost before = members@;
            members.set(i, (key, value));
            proof {
                member_views_index(members@);
            }
            assert(member_views(members@) =~= member_views(before).update(
                i as int,
                (key@, value@),
            ));
            return;
        }
        i = i + 1;
    }
    let ghost before = members@;
    members.push((key, value));
    assert(members@.drop_last() =~= before);
}

proof fn key_place_is_first(members: Seq<(Seq<char>, JsonView)>, key: Seq<char>, from: int)
    requires
        0 <= from <= members.len(),
    ensures
        from <= key_place(members, key, from) <= members.len(),
        key_place(members, key, from) < members.len() ==> members[key_place(
            members,
            key,
            from,
        )].0 == key,
        forall|j: int| from <= j < key_place(members, key, from) ==> members[j].0 != key,
    decreases members.len() - from,
{
    if from < members.len() && members[from].0 != key {
        key_place_is_first(members, key, from + 1);
    }
}

proof fn member_at_agrees(
    a: Seq<(Seq<char>, JsonView)>,
    b: Seq<(Seq<char>, JsonView)>,
    key: Seq<char>,
    from: int,
    skip: int,
)
    requires
        0 <= from <= a.len(),
        a.len() <= b.len(),
        forall|j: int| from <= j < a.len() && j != skip ==> a[j] == b[j],
        0 <= skip < a.len() ==> a[skip].0 != key && b[skip].0 != key,
        forall|j: int| a.len() <= j < b.len() ==> b[j].0 != key,
    ensures
        member_at(a, key, from) == member_at(b, key, from),
    decreases b.len() - from,
{
    if from < a.len() {
        if from == skip || a[from].0 != key {
            member_at_agrees(a, b, key, from + 1, skip);
        }
    } else {
        absent(b, key, from);
    }
}

proof fn absent(b: Seq<(Seq<char>, JsonView)>, key: Seq<char>, from: int)
    requires
        0 <= from,
        forall|j: int| from <= j < b.len() ==> b[j].0 != key,
    ensures
        member_at(b, key, from) is None,
    decreases b.len() - from,
{
    if from < b.len() {
        absent(b, key, from + 1);
    }
}

proof fn member_at_place(members: Seq<(Seq<char>, JsonView)>, key: Seq<char>, from: int, at: int)
    requires
        0 <= from <= at < members.len(),
        members[at].0 == key,
        forall|j: int| from <= j < at ==> members[j].0 != key,
    ensures
        member_at(members, key, from) == Some(members[at].1),
    decreases at - from,
{
    if from < at {
        member_at_place(members, key, from + 1, at);
    }
}

/// The value set under a key is the one found there, and what is under any other key
/// stays. So of values set under one key the last counts.
pub proof fn a_set_member_is_found(
    members: Seq<(Seq<char>, JsonView)>,
    key: Seq<char>,
    value: JsonView,
    other: Seq<char>,
)
    ensures
        member_at(with_member(members, key, value), key, 0) == Some(value),
        other != key ==> member_at(with_member(members, key, value), other, 0) == member_at(
            members,
            other,
            0,
        ),
{
    key_place_is_first(members, key, 0);
    let at = key_place(members, key, 0);
    let after = with_member(members, key, value);
    if at < members.len() {
        member_at_place(after, key, 0, at);
        if other != key {
            member_at_agrees(members, after, other, 0, at);
        }
    } else {
        member_at_place(after, key, 0, members.len() as int);
        if other != key {
            member_at_agrees(members, after, other, 0, -1);
        }
    }
}

/// Calls `clone` of a `serde_json::Number`, whose copy has the same text.
#[verifier::external_body]
fn copy_number(n: &JsonNumber) -> (r: JsonNumber)
    ensures
        r@ == n@,
{
    JsonNumber { number: n.number.clone(), text: n.text.clone() }
}

} // verus!
