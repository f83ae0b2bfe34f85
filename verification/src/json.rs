//! JSON documents, as far as the compositor and the transcription service use
//! them.
//!
//! Parsing and rendering are `serde_json`'s. What comes in is a [`Json`], what
//! goes out is a [`Payload`]; both stand for a [`JsonView`].

use vstd::prelude::*;
use vstd::string::*;

verus! {

/// What a JSON document says. Of a number it keeps the value as an unsigned
/// 64-bit integer, if it is one. The order of an object's members is not kept.
pub enum JsonView {
    Null,
    Bool(bool),
    Number(Option<u64>),
    Text(Seq<char>),
    Array(Seq<JsonView>),
    Object(Map<Seq<char>, JsonView>),
}

impl JsonView {
    /// The member `name` of an object.
    pub open spec fn member(self, name: Seq<char>) -> Option<JsonView> {
        match self {
            JsonView::Object(members) if members.contains_key(name) => Some(members[name]),
            _ => None,
        }
    }

    /// The text of a member that is a string.
    pub open spec fn text_member(self, name: Seq<char>) -> Option<Seq<char>> {
        match self.member(name) {
            Some(JsonView::Text(text)) => Some(text),
            _ => None,
        }
    }
}

/// A JSON document that was received.
#[derive(Debug)]
pub enum Json {
    Null,
    Bool(bool),
    Number(Option<u64>),
    Text(String),
    Array(Vec<Json>),
    Object(Vec<(String, Json)>),
}

/// What a received document says.
pub open spec fn json_view(json: Json) -> JsonView
    decreases json,
{
    match json {
        Json::Null => JsonView::Null,
        Json::Bool(value) => JsonView::Bool(value),
        Json::Number(value) => JsonView::Number(value),
        Json::Text(text) => JsonView::Text(text@),
        Json::Array(items) => JsonView::Array(items_view(items@)),
        Json::Object(members) => JsonView::Object(members_view(members@)),
    }
}

/// What the items of an array say.
pub open spec fn items_view(items: Seq<Json>) -> Seq<JsonView>
    decreases items,
{
    if items.len() == 0 {
        Seq::empty()
    } else {
        items_view(items.drop_last()).push(json_view(items.last()))
    }
}

/// What the members of an object say. Of two members with one name the last
/// one counts.
pub open spec fn members_view(members: Seq<(String, Json)>) -> Map<Seq<char>, JsonView>
    decreases members,
{
    if members.len() == 0 {
        Map::empty()
    } else {
        members_view(members.drop_last()).insert(members.last().0@, json_view(members.last().1))
    }
}

impl View for Json {
    type V = JsonView;

    open spec fn view(&self) -> JsonView {
        json_view(*self)
    }
}

impl Json {
    /// The member `name`, if this is an object that has it.
    pub fn get(&self, name: &str) -> (member: Option<&Json>)
        ensures
            match member {
                Some(member) => self@.member(name@) == Some(member@),
                None => self@.member(name@) is None,
            },
    {
        match self {
            Json::Object(members) => find_member(members.as_slice(), name),
            _ => None,
        }
    }

    /// The text, if this is a string.
    pub fn as_str(&self) -> (text: Option<&str>)
        ensures
            match text {
                Some(text) => self@ == JsonView::Text(text@),
                None => self@ !is Text,
            },
    {
        match self {
            Json::Text(text) => Some(text.as_str()),
            _ => None,
        }
    }

    /// The number, if this is an unsigned 64-bit integer.
    pub fn as_u64(&self) -> (value: Option<u64>)
        ensures
            match value {
                Some(value) => self@ == JsonView::Number(Some(value)),
                None => !(self@ matches JsonView::Number(Some(_))),
            },
    {
        match self {
            Json::Number(value) => *value,
            _ => None,
        }
    }

    /// The text of the member `name`, if it is a string.
    pub fn text_member(&self, name: &str) -> (text: Option<&str>)
        ensures
            match text {
                Some(text) => self@.text_member(name@) == Some(text@),
                None => self@.text_member(name@) is None,
            },
    {
        match self.get(name) {
            Some(member) => member.as_str(),
            None => None,
        }
    }
}

fn find_member<'a>(members: &'a [(String, Json)], name: &str) -> (member: Option<&'a Json>)
    ensures
        match member {
            Some(member) => members_view(members@).contains_key(name@) && members_view(
                members@,
            )[name@] == member@,
            None => !members_view(members@).contains_key(name@),
        },
{
    let mut i: usize = members.len();
    assert(members@.take(i as int) == members@);
    while i > 0
        invariant
            i <= members.len(),
            members_view(members@).contains_key(name@) == members_view(
                members@.take(i as int),
            ).contains_key(name@),
            members_view(members@.take(i as int)).contains_key(name@) ==> members_view(
                members@,
            )[name@] == members_view(members@.take(i as int))[name@],
        decreases i,
    {
        let ghost rest = members@.take(i as int);
        assert(rest.drop_last() =~= members@.take(i - 1));
        i = i - 1;
        if crate::text::same_text(members[i].0.as_str(), name) {
            return Some(&members[i].1);
        }
    }
    None
}

/// A JSON document to send.
#[derive(Debug)]
pub enum Payload {
    Null,
    Unsigned(u64),
    Text(String),
    Object(Vec<(String, Payload)>),
}

/// What a document to send says.
pub open spec fn payload_view(payload: Payload) -> JsonView
    decreases payload,
{
    match payload {
        Payload::Null => JsonView::Null,
        Payload::Unsigned(value) => JsonView::Number(Some(value)),
        Payload::Text(text) => JsonView::Text(text@),
        Payload::Object(members) => JsonView::Object(fields_view(members@)),
    }
}

/// What the members of an object to send say. Of two members with one name the
/// last one counts.
pub open spec fn fields_view(members: Seq<(String, Payload)>) -> Map<Seq<char>, JsonView>
    decreases members,
{
    if members.len() == 0 {
        Map::empty()
    } else {
        fields_view(members.drop_last()).insert(members.last().0@, payload_view(members.last().1))
    }
}

impl View for Payload {
    type V = JsonView;

    open spec fn view(&self) -> JsonView {
        payload_view(*self)
    }
}

/// Adds a member to an object to send.
pub fn put_member(members: &mut Vec<(String, Payload)>, name: &str, value: Payload)
    ensures
        fields_view(final(members)@) == fields_view(old(members)@).insert(name@, value@),
{
    members.push((name.to_owned(), value));
    assert(members@.drop_last() =~= old(members)@);
}

/// `serde_json`'s value.
#[verifier::external_type_specification]
#[verifier::external_body]
pub struct ExValue(serde_json::Value);

/// `serde_json`'s error.
#[verifier::external_type_specification]
#[verifier::external_body]
pub struct ExJsonError(serde_json::Error);

/// What a `serde_json` value holds.
pub uninterp spec fn held(value: serde_json::Value) -> JsonView;

/// What `serde_json` reads a text as; nothing if it rejects the text.
pub uninterp spec fn json_document(text: Seq<char>) -> Option<JsonView>;

/// The text that `serde_json` renders a document as.
pub uninterp spec fn json_rendering(document: JsonView) -> Seq<char>;

/// `serde_json::from_str`: a value that depends on the text alone, or an error
/// on the texts that are no JSON document.
#[verifier::external_body]
fn parsed_value(text: &str) -> (value: Result<serde_json::Value, serde_json::Error>)
    ensures
        match value {
            Ok(value) => json_document(text@) == Some(held(value)),
            Err(_) => json_document(text@) is None,
        },
{
    serde_json::from_str(text)
}

/// Takes a `serde_json::Value` apart, variant by variant; of a number it keeps
/// what `Number::as_u64` gives.
#[verifier::external_body]
fn taken_apart(value: serde_json::Value) -> (json: Json)
    ensures
        json@ == held(value),
{
    match value {
        serde_json::Value::Null => Json::Null,
        serde_json::Value::Bool(value) => Json::Bool(value),
        serde_json::Value::Number(number) => Json::Number(number.as_u64()),
        serde_json::Value::String(text) => Json::Text(text),
        serde_json::Value::Array(items) => Json::Array(
            items.into_iter().map(taken_apart).collect(),
        ),
        serde_json::Value::Object(members) => Json::Object(
            members.into_iter().map(|(name, value)| (name, taken_apart(value))).collect(),
        ),
    }
}

/// Puts a `serde_json::Value` together, variant by variant. `Map::insert` replaces
/// the value of a name that the map already has, so of two members with one name
/// an object keeps the last.
#[verifier::external_body]
fn put_together(payload: Payload) -> (value: serde_json::Value)
    ensures
        held(value) == payload@,
{
    match payload {
        Payload::Null => serde_json::Value::Null,
        Payload::Unsigned(value) => serde_json::Value::from(value),
        Payload::Text(text) => serde_json::Value::String(text),
        Payload::Object(members) => {
            let mut map = serde_json::Map::new();
            for (name, value) in members {
                map.insert(name, put_together(value));
            }
            serde_json::Value::Object(map)
        },
    }
}

/// The `Display` of `serde_json::Value`: compact JSON with the members of an
/// object in the order of their names. For a value that holds what a
/// [`Payload`] can say, the text depends on what the value holds alone.
#[verifier::external_body]
fn rendered_value(value: &serde_json::Value) -> (text: String)
    requires
        exists|payload: Payload| held(*value) == #[trigger] payload@,
    ensures
        text@ == json_rendering(held(*value)),
{
    value.to_string()
}

/// Parses a JSON document.
pub fn parse_json(text: &str) -> (json: Option<Json>)
    ensures
        match json {
            Some(json) => json_document(text@) == Some(json@),
            None => json_document(text@) is None,
        },
{
    match parsed_value(text) {
        Ok(value) => Some(taken_apart(value)),
        Err(_) => None,
    }
}

/// Renders a JSON document.
pub fn render_json(payload: Payload) -> (text: String)
    ensures
        text@ == json_rendering(payload@),
{
    rendered_value(&put_together(payload))
}

} // verus!
