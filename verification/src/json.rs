//! JSON values as trees, and their compact text.

use vstd::prelude::*;
use vstd::string::*;

use crate::digest::hex_digit;
use crate::model::Duplicate;
use crate::text::{decimal, decimal_int, decimal_of, decimal_of_signed, same};

verus! {

/// A character as it is written in a JSON string: quotes, backslashes and control characters are
/// escaped.
pub open spec fn json_escaped(c: char) -> Seq<char> {
    if c == '"' || c == '\\' {
        seq!['\\', c]
    } else if c as int == 8 {
        seq!['\\', 'b']
    } else if c == '\t' {
        seq!['\\', 't']
    } else if c == '\n' {
        seq!['\\', 'n']
    } else if c as int == 12 {
        seq!['\\', 'f']
    } else if c == '\r' {
        seq!['\\', 'r']
    } else if (c as int) < 32 {
        seq!['\\', 'u', '0', '0', hex_digit(c as int / 16), hex_digit(c as int % 16)]
    } else {
        seq![c]
    }
}

/// A string as a JSON string literal, quoted and escaped.
#[verifier::opaque]
pub open spec fn json_quoted(value: Seq<char>) -> Seq<char> {
    seq!['"'] + value.map_values(|c: char| json_escaped(c)).flatten() + seq!['"']
}

/// `serde_json::to_string` on a string: its JSON literal, between quotes, with quotes, backslashes
/// and control characters escaped and all else as it is. Writing a string to memory does not fail.
#[verifier::external_body]
pub(crate) fn quote_json(value: &str) -> (r: String)
    ensures
        r@ == json_quoted(value@),
{
    serde_json::to_string(value).unwrap_or_default()
}

/// `serde_json::Value`, as it comes from the parser.
#[verifier::external_type_specification]
#[verifier::external_body]
pub struct ExValue(serde_json::Value);

/// What a text is when it is read as JSON; nothing if it is no JSON.
pub uninterp spec fn json_parsed(text: Seq<char>) -> Option<JsonView>;

/// Takes a `serde_json::Value` over, variant by variant. `Number::as_u64` and `Number::as_i64` tell
/// the integers apart, and any other number keeps the text that `serde_json` gives it. Nothing is
/// claimed of the result here: `parse_json` names it.
#[verifier::external_body]
fn json_of(value: serde_json::Value) -> (r: Json) {
    match value {
        serde_json::Value::Null => Json::Null,
        serde_json::Value::Bool(b) => Json::Bool(b),
        serde_json::Value::Number(n) => match (n.as_u64(), n.as_i64()) {
            (Some(value), _) => Json::Unsigned(value),
            (None, Some(value)) => Json::Negative(value),
            (None, None) => Json::Float(n.to_string()),
        },
        serde_json::Value::String(t) => Json::Text(t),
        serde_json::Value::Array(items) => Json::List(items.into_iter().map(json_of).collect()),
        serde_json::Value::Object(members) => Json::Object(
            members.into_iter().map(|(key, value)| (key, json_of(value))).collect(),
        ),
    }
}

/// `serde_json::from_str` on a text that may hold any JSON value. What comes back depends on the
/// characters of the text alone. The contract names it.
#[verifier::external_body]
fn parse_json(text: &str) -> (r: Option<Json>)
    ensures
        match r {
            Some(value) => json_parsed(text@) == Some(value@),
            None => json_parsed(text@) is None,
        },
{
    serde_json::from_str::<serde_json::Value>(text).ok().map(json_of)
}

/// A JSON value. A number that is no 64-bit integer is kept in its decimal text.
#[derive(Debug, PartialEq, Eq)]
pub enum Json {
    Null,
    Bool(bool),
    Unsigned(u64),
    Negative(i64),
    Float(String),
    Text(String),
    List(Vec<Json>),
    Object(Vec<(String, Json)>),
}

pub enum JsonView {
    Null,
    Bool(bool),
    Unsigned(u64),
    Negative(i64),
    Float(Seq<char>),
    Text(Seq<char>),
    List(Seq<JsonView>),
    Object(Seq<(Seq<char>, JsonView)>),
}

pub open spec fn json_view(value: Json) -> JsonView
    decreases value,
{
    match value {
        Json::Null => JsonView::Null,
        Json::Bool(b) => JsonView::Bool(b),
        Json::Unsigned(n) => JsonView::Unsigned(n),
        Json::Negative(n) => JsonView::Negative(n),
        Json::Float(t) => JsonView::Float(t@),
        Json::Text(t) => JsonView::Text(t@),
        Json::List(items) => JsonView::List(
            Seq::new(
                items@.len(),
                |i: int|
                    if 0 <= i < items@.len() {
                        json_view(items@[i])
                    } else {
                        JsonView::Null
                    },
            ),
        ),
        Json::Object(members) => JsonView::Object(
            Seq::new(
                members@.len(),
                |i: int|
                    if 0 <= i < members@.len() {
                        (members@[i].0@, json_view(members@[i].1))
                    } else {
                        (Seq::empty(), JsonView::Null)
                    },
            ),
        ),
    }
}

impl View for Json {
    type V = JsonView;

    open spec fn view(&self) -> JsonView {
        json_view(*self)
    }
}

/// The first member of the given name.
pub open spec fn lookup(members: Seq<(Seq<char>, JsonView)>, key: Seq<char>) -> Option<JsonView>
    decreases members.len(),
{
    if members.len() == 0 {
        None
    } else if members[0].0 == key {
        Some(members[0].1)
    } else {
        lookup(members.drop_first(), key)
    }
}

pub open spec fn member(value: JsonView, key: Seq<char>) -> Option<JsonView> {
    match value {
        JsonView::Object(members) => lookup(members, key),
        _ => None,
    }
}

pub open spec fn member_of(value: Option<JsonView>, key: Seq<char>) -> Option<JsonView> {
    match value {
        Some(v) => member(v, key),
        None => None,
    }
}

pub open spec fn text_value(value: Option<JsonView>) -> Option<Seq<char>> {
    match value {
        Some(JsonView::Text(t)) => Some(t),
        _ => None,
    }
}

pub open spec fn unsigned_value(value: Option<JsonView>) -> Option<u64> {
    match value {
        Some(JsonView::Unsigned(n)) => Some(n),
        _ => None,
    }
}

pub open spec fn bool_value(value: Option<JsonView>) -> Option<bool> {
    match value {
        Some(JsonView::Bool(b)) => Some(b),
        _ => None,
    }
}

pub open spec fn list_value(value: Option<JsonView>) -> Option<Seq<JsonView>> {
    match value {
        Some(JsonView::List(items)) => Some(items),
        _ => None,
    }
}

/// The compact text of a value: no white space, members in the order in which they stand.
pub open spec fn json_text(value: JsonView) -> Seq<char>
    decreases value, 0int, 0int,
{
    match value {
        JsonView::Null => "null"@,
        JsonView::Bool(b) => if b {
            "true"@
        } else {
            "false"@
        },
        JsonView::Unsigned(n) => decimal(n as nat),
        JsonView::Negative(n) => decimal_int(n as int),
        JsonView::Float(t) => t,
        JsonView::Text(t) => json_quoted(t),
        JsonView::List(items) => "["@ + list_text(items, items.len() as int) + "]"@,
        JsonView::Object(members) => "{"@ + object_text(members, members.len() as int) + "}"@,
    }
}

/// The first `n` items, with commas between them.
pub open spec fn list_text(items: Seq<JsonView>, n: int) -> Seq<char>
    decreases items, 1int, n,
{
    if n <= 0 || n > items.len() {
        Seq::empty()
    } else if n == 1 {
        json_text(items[0])
    } else {
        list_text(items, n - 1) + ","@ + json_text(items[n - 1])
    }
}

/// The first `n` members, with commas between them.
pub open spec fn object_text(members: Seq<(Seq<char>, JsonView)>, n: int) -> Seq<char>
    decreases members, 1int, n,
{
    if n <= 0 || n > members.len() {
        Seq::empty()
    } else if n == 1 {
        json_quoted(members[0].0) + ":"@ + json_text(members[0].1)
    } else {
        object_text(members, n - 1) + ","@ + json_quoted(members[n - 1].0) + ":"@ + json_text(
            members[n - 1].1,
        )
    }
}

impl Json {
    /// Reads a text as JSON.
    pub fn parse(text: &str) -> (r: Option<Json>)
        ensures
            match r {
                Some(value) => json_parsed(text@) == Some(value@),
                None => json_parsed(text@) is None,
            },
    {
        parse_json(text)
    }

    pub fn get(&self, key: &str) -> (r: Option<&Json>)
        ensures
            r is Some <==> member(self@, key@) is Some,
            r matches Some(v) ==> member(self@, key@) == Some(v@),
    {
        match self {
            Json::Object(members) => {
                let ghost all = self@->Object_0;
                let mut i: usize = 0;
                assert(all.subrange(0, all.len() as int) =~= all);
                while i < members.len()
                    invariant
                        i <= members.len(),
                        self@ == JsonView::Object(all),
                        all.len() == members@.len(),
                        forall|k: int|
                            0 <= k < members@.len() ==> #[trigger] all[k] == (
                                members@[k].0@,
                                members@[k].1@,
                            ),
                        lookup(all, key@) == lookup(all.subrange(i as int, all.len() as int), key@),
                    decreases members.len() - i,
                {
                    if same(members[i].0.as_str(), key) {
                        return Some(&members[i].1);
                    }
                    assert(all.subrange(i as int, all.len() as int).drop_first() =~= all.subrange(
                        i as int + 1,
                        all.len() as int,
                    ));
                    i = i + 1;
                }
                None
            },
            _ => None,
        }
    }

    pub fn as_text(&self) -> (r: Option<&String>)
        ensures
            r is Some <==> text_value(Some(self@)) is Some,
            r matches Some(t) ==> text_value(Some(self@)) == Some(t@),
    {
        match self {
            Json::Text(t) => Some(t),
            _ => None,
        }
    }

    pub fn as_unsigned(&self) -> (r: Option<u64>)
        ensures
            r == unsigned_value(Some(self@)),
    {
        match self {
            Json::Unsigned(n) => Some(*n),
            _ => None,
        }
    }

    pub fn as_bool(&self) -> (r: Option<bool>)
        ensures
            r == bool_value(Some(self@)),
    {
        match self {
            Json::Bool(b) => Some(*b),
            _ => None,
        }
    }

    pub fn get_text(&self, key: &str) -> (r: Option<&String>)
        ensures
            r is Some <==> text_value(member(self@, key@)) is Some,
            r matches Some(t) ==> text_value(member(self@, key@)) == Some(t@),
    {
        match self.get(key) {
            Some(v) => v.as_text(),
            None => None,
        }
    }

    pub fn get_unsigned(&self, key: &str) -> (r: Option<u64>)
        ensures
            r == unsigned_value(member(self@, key@)),
    {
        match self.get(key) {
            Some(v) => v.as_unsigned(),
            None => None,
        }
    }

    pub fn get_bool(&self, key: &str) -> (r: Option<bool>)
        ensures
            r == bool_value(member(self@, key@)),
    {
        match self.get(key) {
            Some(v) => v.as_bool(),
            None => None,
        }
    }

    pub fn get_list(&self, key: &str) -> (r: Option<&Vec<Json>>)
        ensures
            r is Some <==> list_value(member(self@, key@)) is Some,
            r matches Some(items) ==> list_value(member(self@, key@)) == Some(json_views(items@)),
    {
        match self.get(key) {
            Some(v) => match v {
                Json::List(items) => {
                    assert(v@->List_0 =~= json_views(items@));
                    Some(items)
                },
                _ => None,
            },
            None => None,
        }
    }

    /// The compact text of the value.
    pub fn text(&self) -> (r: String)
        ensures
            r@ == json_text(self@),
        decreases self,
    {
        match self {
            Json::Null => "null".to_owned(),
            Json::Bool(b) => if *b {
                "true".to_owned()
            } else {
                "false".to_owned()
            },
            Json::Unsigned(n) => decimal_of(*n),
            Json::Negative(n) => decimal_of_signed(*n),
            Json::Float(t) => t.clone(),
            Json::Text(t) => quote_json(t.as_str()),
            Json::List(items) => {
                let ghost all = self@->List_0;
                let mut r = "[".to_owned();
                let mut i: usize = 0;
                assert(r@ =~= "["@ + list_text(all, 0));
                while i < items.len()
                    invariant
                        i <= items.len(),
                        all == self@->List_0,
                        all.len() == items@.len(),
                        *self == Json::List(*items),
                        forall|k: int| 0 <= k < items@.len() ==> #[trigger] all[k] == items@[k]@,
                        r@ == "["@ + list_text(all, i as int),
                    decreases items.len() - i,
                {
                    if i > 0 {
                        r.append(",");
                    }
                    assert(decreases_to!(*self => items@[i as int]));
                    r.append(items[i].text().as_str());
                    i = i + 1;
                    assert(r@ =~= "["@ + list_text(all, i as int));
                }
                r.append("]");
                r
            },
            Json::Object(members) => {
                let ghost all = self@->Object_0;
                let mut r = "{".to_owned();
                let mut i: usize = 0;
                assert(r@ =~= "{"@ + object_text(all, 0));
                while i < members.len()
                    invariant
                        i <= members.len(),
                        all == self@->Object_0,
                        all.len() == members@.len(),
                        *self == Json::Object(*members),
                        forall|k: int|
                            0 <= k < members@.len() ==> #[trigger] all[k] == (
                                members@[k].0@,
                                members@[k].1@,
                            ),
                        r@ == "{"@ + object_text(all, i as int),
                    decreases members.len() - i,
                {
                    if i > 0 {
                        r.append(",");
                    }
                    r.append(quote_json(members[i].0.as_str()).as_str());
                    r.append(":");
                    assert(decreases_to!(*self => members@[i as int]));
                    assert(decreases_to!(members@[i as int] => members@[i as int].1));
                    r.append(members[i].1.text().as_str());
                    i = i + 1;
                    assert(r@ =~= "{"@ + object_text(all, i as int));
                }
                r.append("}");
                r
            },
        }
    }

    pub fn copy(&self) -> (r: Json)
        ensures
            r@ == self@,
        decreases self,
    {
        match self {
            Json::Null => Json::Null,
            Json::Bool(b) => Json::Bool(*b),
            Json::Unsigned(n) => Json::Unsigned(*n),
            Json::Negative(n) => Json::Negative(*n),
            Json::Float(t) => Json::Float(t.clone()),
            Json::Text(t) => Json::Text(t.clone()),
            Json::List(items) => {
                let mut copies: Vec<Json> = Vec::new();
                let mut i: usize = 0;
                while i < items.len()
                    invariant
                        i <= items.len(),
                        *self == Json::List(*items),
                        copies@.len() == i,
                        forall|k: int| 0 <= k < i ==> (#[trigger] copies@[k])@ == items@[k]@,
                    decreases items.len() - i,
                {
                    assert(decreases_to!(self->List_0@ => self->List_0@[i as int]));
                    copies.push(items[i].copy());
                    i = i + 1;
                }
                let r = Json::List(copies);
                assert(r@->List_0 =~= self@->List_0);
                r
            },
            Json::Object(members) => {
                let mut copies: Vec<(String, Json)> = Vec::new();
                let mut i: usize = 0;
                while i < members.len()
                    invariant
                        i <= members.len(),
                        *self == Json::Object(*members),
                        copies@.len() == i,
                        forall|k: int|
                            0 <= k < i ==> (#[trigger] copies@[k]).0@ == members@[k].0@
                                && copies@[k].1@ == members@[k].1@,
                    decreases members.len() - i,
                {
                    assert(decreases_to!(self->Object_0@ => self->Object_0@[i as int]));
                    assert(decreases_to!(members@[i as int] => members@[i as int].1));
                    copies.push((members[i].0.clone(), members[i].1.copy()));
                    i = i + 1;
                }
                let r = Json::Object(copies);
                assert(r@->Object_0 =~= self@->Object_0);
                r
            },
        }
    }
}

pub open spec fn json_views(items: Seq<Json>) -> Seq<JsonView> {
    Seq::new(items.len(), |i: int| items[i]@)
}

/// An object with the given members.
pub fn object(members: Vec<(String, Json)>) -> (r: Json)
    ensures
        r@ == JsonView::Object(Seq::new(members@.len(), |i: int| (members@[i].0@, members@[i].1@))),
{
    let r = Json::Object(members);
    assert(r@->Object_0 =~= Seq::new(members@.len(), |i: int| (members@[i].0@, members@[i].1@)));
    r
}

pub fn text_json(value: &str) -> (r: Json)
    ensures
        r@ == JsonView::Text(value@),
{
    Json::Text(value.to_owned())
}

impl Duplicate for Json {
    fn duplicate(&self) -> (r: Self) {
        self.copy()
    }
}

} // verus!
