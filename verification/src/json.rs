//! JSON documents as the service reads and writes them.

use crate::text::{decimal, decimal_text, push_decimal, same_text, signed_decimal};
use vstd::prelude::*;
use vstd::string::StringExecFns;

verus! {

/// A JSON document.
///
/// A number is held as text: for a number that was read, the text that
/// `serde_json` displays for it, which need not be the literal that stood in
/// the input (`1e2` is held as `100.0`).  A document that holds a number
/// whose text is no number to `serde_json` cannot be written.  An object
/// holds its members in the order in which they were put; where a name
/// stands twice, the last member of that name counts.
#[derive(Debug, PartialEq, Eq)]
pub enum Json {
    Null,
    Bool(bool),
    Number(String),
    Text(String),
    Array(Vec<Json>),
    Object(Vec<(String, Json)>),
}

/// A named member of an object.
#[verifier::ext_equal]
pub struct Member {
    pub name: Seq<char>,
    pub value: JsonValue,
}

/// The mathematical value of a JSON document.
#[verifier::ext_equal]
pub enum JsonValue {
    Null,
    Bool(bool),
    Number(Seq<char>),
    Text(Seq<char>),
    Array(Seq<JsonValue>),
    Object(Seq<Member>),
}

impl View for Json {
    type V = JsonValue;

    open spec fn view(&self) -> JsonValue
        decreases self,
    {
        match self {
            Json::Null => JsonValue::Null,
            Json::Bool(b) => JsonValue::Bool(*b),
            Json::Number(t) => JsonValue::Number(t@),
            Json::Text(t) => JsonValue::Text(t@),
            Json::Array(items) => JsonValue::Array(
                Seq::new(
                    items@.len(),
                    |i: int|
                        if 0 <= i < items@.len() {
                            items@[i].view()
                        } else {
                            JsonValue::Null
                        },
                ),
            ),
            Json::Object(members) => JsonValue::Object(
                Seq::new(
                    members@.len(),
                    |i: int|
                        if 0 <= i < members@.len() {
                            Member { name: members@[i].0@, value: members@[i].1.view() }
                        } else {
                            Member { name: Seq::empty(), value: JsonValue::Null }
                        },
                ),
            ),
        }
    }
}

/// The value that the last member named `key` has among `members`.
pub open spec fn member(members: Seq<Member>, key: Seq<char>) -> Option<JsonValue>
    decreases members.len(),
{
    if members.len() == 0 {
        None
    } else if members.last().name == key {
        Some(members.last().value)
    } else {
        member(members.drop_last(), key)
    }
}

impl JsonValue {
    /// The member named `key`, where the document is an object that has one.
    pub open spec fn get(self, key: Seq<char>) -> Option<JsonValue> {
        match self {
            JsonValue::Object(members) => member(members, key),
            _ => None,
        }
    }

    /// The characters, where the document is a string.
    pub open spec fn as_text(self) -> Option<Seq<char>> {
        match self {
            JsonValue::Text(t) => Some(t),
            _ => None,
        }
    }

    /// The characters of the member named `key`, where it is a string.
    pub open spec fn text_at(self, key: Seq<char>) -> Option<Seq<char>> {
        match self.get(key) {
            Some(v) => v.as_text(),
            None => None,
        }
    }

    /// The object without members.
    pub open spec fn object() -> JsonValue {
        JsonValue::Object(Seq::empty())
    }

    /// The object with one more member at its end.
    pub open spec fn with(self, name: Seq<char>, value: JsonValue) -> JsonValue {
        match self {
            JsonValue::Object(members) => JsonValue::Object(members.push(Member { name, value })),
            other => other,
        }
    }

    /// The document that holds the number `n`.
    pub open spec fn integer(n: int) -> JsonValue {
        JsonValue::Number(signed_decimal(n))
    }
}

/// The values of a list of documents.
pub open spec fn items_view(items: Seq<Json>) -> Seq<JsonValue> {
    Seq::new(items.len(), |i: int| items[i]@)
}

/// The values of a list of named documents.
pub open spec fn members_view(members: Seq<(String, Json)>) -> Seq<Member> {
    Seq::new(members.len(), |i: int| Member { name: members[i].0@, value: members[i].1@ })
}

impl Json {
    /// The value of an array is the values of its items.
    pub proof fn array_view(items: Vec<Json>)
        ensures
            Json::Array(items)@ == JsonValue::Array(items_view(items@)),
    {
        assert(Json::Array(items)@->Array_0 =~= items_view(items@));
    }

    /// The value of an object is the names and values of its members.
    pub proof fn object_view(members: Vec<(String, Json)>)
        ensures
            Json::Object(members)@ == JsonValue::Object(members_view(members@)),
    {
        assert(Json::Object(members)@->Object_0 =~= members_view(members@));
    }

    /// The member named `key`: the last one of that name, as
    /// `serde_json` keeps the last of two equal keys.
    pub fn get(&self, key: &str) -> (found: Option<&Json>)
        ensures
            match found {
                Some(j) => self@.get(key@) == Some(j@),
                None => self@.get(key@) is None,
            },
    {
        match self {
            Json::Object(members) => {
                proof {
                    Json::object_view(*members);
                }
                let ghost all = members_view(members@);
                let mut i: usize = members.len();
                assert(all.take(i as int) =~= all);
                while i > 0
                    invariant
                        i <= members.len(),
                        all == members_view(members@),
                        self@ == JsonValue::Object(all),
                        member(all, key@) == member(all.take(i as int), key@),
                    decreases i,
                {
                    i -= 1;
                    assert(all.take(i + 1).last() == all[i as int]);
                    assert(all.take(i + 1).drop_last() =~= all.take(i as int));
                    if same_text(members[i].0.as_str(), key) {
                        return Some(&members[i].1);
                    }
                }
                assert(all.take(0).len() == 0);
                None
            },
            _ => None,
        }
    }

    /// The characters, where the document is a string.
    pub fn as_str(&self) -> (text: Option<&str>)
        ensures
            match text {
                Some(t) => self@.as_text() == Some(t@),
                None => self@.as_text() is None,
            },
    {
        match self {
            Json::Text(t) => Some(t.as_str()),
            _ => None,
        }
    }

    /// The characters of the member named `key`, where it is a string.
    pub fn text_at(&self, key: &str) -> (text: Option<&str>)
        ensures
            match text {
                Some(t) => self@.text_at(key@) == Some(t@),
                None => self@.text_at(key@) is None,
            },
    {
        match self.get(key) {
            Some(v) => v.as_str(),
            None => None,
        }
    }

    /// Whether the document is `null`.
    pub fn is_null(&self) -> (null: bool)
        ensures
            null == (self@ is Null),
    {
        match self {
            Json::Null => true,
            _ => false,
        }
    }

    /// The string document with the characters of `s`.
    pub fn text(s: &str) -> (j: Json)
        ensures
            j@ == JsonValue::Text(s@),
    {
        Json::Text(String::from_str(s))
    }

    /// The number document for `n`.
    pub fn integer(n: i64) -> (j: Json)
        ensures
            j@ == JsonValue::integer(n as int),
    {
        Json::Number(decimal_text(n))
    }

    /// The number document for `n`.
    pub fn unsigned(n: u64) -> (j: Json)
        ensures
            j@ == JsonValue::integer(n as int),
    {
        let mut t = String::new();
        push_decimal(&mut t, n);
        assert(t@ =~= decimal(n as nat));
        Json::Number(t)
    }

    /// The array document with the given items.
    pub fn array(items: Vec<Json>) -> (j: Json)
        ensures
            j@ == JsonValue::Array(items_view(items@)),
    {
        proof {
            Json::array_view(items);
        }
        Json::Array(items)
    }
}

impl Clone for Json {
    fn clone(&self) -> (copy: Json)
        ensures
            copy@ == self@,
        decreases self,
    {
        match self {
            Json::Null => Json::Null,
            Json::Bool(b) => Json::Bool(*b),
            Json::Number(t) => Json::Number(t.clone()),
            Json::Text(t) => Json::Text(t.clone()),
            Json::Array(items) => {
                let mut copies: Vec<Json> = Vec::new();
                let mut i: usize = 0;
                while i < items.len()
                    invariant
                        *self == Json::Array(*items),
                        i <= items.len(),
                        copies.len() == i,
                        forall|k: int| 0 <= k < i ==> copies@[k]@ == items@[k]@,
                    decreases items.len() - i,
                {
                    assert(self->Array_0 == *items);
                    assert(decreases_to!(*self => items@[i as int]));
                    copies.push(items[i].clone());
                    i += 1;
                }
                proof {
                    Json::array_view(copies);
                    Json::array_view(*items);
                    assert(items_view(copies@) =~= items_view(items@));
                }
                Json::Array(copies)
            },
            Json::Object(members) => {
                let mut copies: Vec<(String, Json)> = Vec::new();
                let mut i: usize = 0;
                while i < members.len()
                    invariant
                        *self == Json::Object(*members),
                        i <= members.len(),
                        copies.len() == i,
                        forall|k: int|
                            0 <= k < i ==> copies@[k].0@ == members@[k].0@ && copies@[k].1@
                                == members@[k].1@,
                    decreases members.len() - i,
                {
                    assert(self->Object_0 == *members);
                    assert(decreases_to!(*self => members@[i as int].1));
                    copies.push((members[i].0.clone(), members[i].1.clone()));
                    i += 1;
                }
                proof {
                    Json::object_view(copies);
                    Json::object_view(*members);
                    assert(members_view(copies@) =~= members_view(members@));
                }
                Json::Object(copies)
            },
        }
    }
}

/// An object document under construction.
pub struct JsonObject {
    members: Vec<(String, Json)>,
}

impl View for JsonObject {
    type V = JsonValue;

    closed spec fn view(&self) -> JsonValue {
        JsonValue::Object(members_view(self.members@))
    }
}

impl JsonObject {
    /// An object without members.
    pub fn new() -> (object: JsonObject)
        ensures
            object@ == JsonValue::object(),
    {
        let object = JsonObject { members: Vec::new() };
        assert(members_view(object.members@) =~= Seq::empty());
        object
    }

    /// The object with one more member at its end.
    pub fn with(self, key: &str, value: Json) -> (object: JsonObject)
        ensures
            object@ == self@.with(key@, value@),
    {
        let mut members = self.members;
        members.push((String::from_str(key), value));
        let object = JsonObject { members };
        assert(members_view(object.members@) =~= members_view(self.members@).push(
            Member { name: key@, value: value@ },
        ));
        object
    }

    /// The finished document.
    pub fn build(self) -> (j: Json)
        ensures
            j@ == self@,
    {
        proof {
            Json::object_view(self.members);
        }
        Json::Object(self.members)
    }
}

/// `serde_json::Value`, which the conversions below take and give unread.
#[verifier::external_type_specification]
#[verifier::external_body]
pub struct ExValue(serde_json::Value);

/// What `serde_json::from_str` makes of a text: the document it reads, or
/// the words of its complaint.
pub uninterp spec fn parse_outcome(text: Seq<char>) -> Result<JsonValue, Seq<char>>;

/// What `serde_json::to_string` makes of a document: its compact text, or
/// the words of the complaint that the document cannot be written.
pub uninterp spec fn render_outcome(document: JsonValue) -> Result<Seq<char>, Seq<char>>;

/// Moves a `serde_json::Value` into a `Json`, variant by variant; a number
/// goes over as the text that `serde_json::Number` displays.
#[verifier::external_body]
fn from_value(value: serde_json::Value) -> Json {
    match value {
        serde_json::Value::Null => Json::Null,
        serde_json::Value::Bool(b) => Json::Bool(b),
        serde_json::Value::Number(n) => Json::Number(n.to_string()),
        serde_json::Value::String(s) => Json::Text(s),
        serde_json::Value::Array(a) => Json::Array(a.into_iter().map(from_value).collect()),
        serde_json::Value::Object(m) => {
            Json::Object(m.into_iter().map(|(k, v)| (k, from_value(v))).collect())
        },
    }
}

/// Calls `serde_json::from_str` for a `serde_json::Value` and hands the
/// document over as a `Json`, or the error as its displayed text.
#[verifier::external_body]
pub(crate) fn parse(text: &str) -> (r: Result<Json, String>)
    ensures
        match r {
            Ok(j) => parse_outcome(text@) == Ok::<JsonValue, Seq<char>>(j@),
            Err(e) => parse_outcome(text@) == Err::<JsonValue, Seq<char>>(e@),
        },
{
    match serde_json::from_str::<serde_json::Value>(text) {
        Ok(value) => Ok(from_value(value)),
        Err(error) => Err(error.to_string()),
    }
}

/// Moves a `Json` into a `serde_json::Value`, variant by variant; a number
/// goes over through `str::parse`, whose error is handed on where the text
/// is no number to `serde_json`.
#[verifier::external_body]
fn to_value(json: &Json) -> Result<serde_json::Value, String> {
    Ok(match json {
        Json::Null => serde_json::Value::Null,
        Json::Bool(b) => serde_json::Value::Bool(*b),
        Json::Number(t) => serde_json::Value::Number(
            t.parse::<serde_json::Number>().map_err(|e| e.to_string())?,
        ),
        Json::Text(s) => serde_json::Value::String(s.clone()),
        Json::Array(a) => serde_json::Value::Array(
            a.iter().map(to_value).collect::<Result<_, _>>()?,
        ),
        Json::Object(m) => serde_json::Value::Object(
            m.iter().map(|(k, v)| Ok((k.clone(), to_value(v)?))).collect::<Result<_, String>>()?,
        ),
    })
}

/// Hands the document to `serde_json::to_string` as a `serde_json::Value`
/// and returns the text, or the error as its displayed text; the error is
/// that of the conversion where the document holds what is no number.  The
/// text holds no line feed: `serde_json` writes compactly, with no white space
/// between the parts of a document, and writes a line feed inside a string
/// as the two characters `\n`.
#[verifier::external_body]
pub(crate) fn render(json: &Json) -> (r: Result<String, String>)
    ensures
        match r {
            Ok(t) => render_outcome(json@) == Ok::<Seq<char>, Seq<char>>(t@) && !t@.contains(
                '\n',
            ),
            Err(e) => render_outcome(json@) == Err::<Seq<char>, Seq<char>>(e@),
        },
{
    match serde_json::to_string(&to_value(json)?) {
        Ok(text) => Ok(text),
        Err(error) => Err(error.to_string()),
    }
}

/// A member put at the end of an object is the one found under its name,
/// and hides no member of another name.
pub proof fn get_after_with(
    document: JsonValue,
    name: Seq<char>,
    value: JsonValue,
    key: Seq<char>,
)
    requires
        document is Object,
    ensures
        document.with(name, value).get(key) == if name == key {
            Some(value)
        } else {
            document.get(key)
        },
{
    let members = document->Object_0;
    assert(members.push(Member { name, value }).drop_last() =~= members);
}

} // verus!
