//! The message operation: its request and the schema of its answer.

use vstd::prelude::*;
use serde_json::Value;
use super::super::{Error, ErrorView};
use super::{pairs, Endpoint, ParseBody};
use crate::json::{
    debug_value, decode_field, decoded_field, from_slice, json_debug, json_parsed, json_view,
    map_entries, map_view, member, models, Decode, JsonView, Number,
};
use crate::text::{bytes_debug, debug_bytes};

verus! {

/// The route of the operation.
pub fn path(e: &Endpoint) -> (r: String)
    ensures
        r@ == e.route(),
{
    match e {
        Endpoint::Message(_) => "/message".to_owned(),
    }
}

/// The query parameters of the operation: the text under the key `q`.
pub fn params(e: &Endpoint) -> (r: Vec<(String, String)>)
    ensures
        pairs(r@) == e.query_pairs(),
{
    match e {
        Endpoint::Message(msg) => {
            let mut out: Vec<(String, String)> = Vec::new();
            out.push(("q".to_owned(), msg.clone()));
            out
        },
    }
}

/// A detected purpose.
#[derive(Debug)]
pub struct Intent {
    pub id: String,
    pub name: String,
    pub confidence: Number,
}

/// The content of an [`Intent`].
pub struct IntentView {
    pub id: Seq<char>,
    pub name: Seq<char>,
    pub confidence: Number,
}

impl View for Intent {
    type V = IntentView;

    open spec fn view(&self) -> IntentView {
        IntentView { id: self.id@, name: self.name@, confidence: self.confidence }
    }
}

impl Decode for Intent {
    type Model = IntentView;

    open spec fn model(&self) -> IntentView {
        self@
    }

    open spec fn decoded(j: JsonView) -> Option<IntentView> {
        match (
            decoded_field::<String>(j, "id"@),
            decoded_field::<String>(j, "name"@),
            decoded_field::<Number>(j, "confidence"@),
        ) {
            (Some(id), Some(name), Some(confidence)) => Some(IntentView { id, name, confidence }),
            _ => None,
        }
    }

    fn decode(v: &Value) -> (r: Option<Intent>) {
        let id = match decode_field::<String>(v, "id") {
            Some(x) => x,
            None => { return None; },
        };
        let name = match decode_field::<String>(v, "name") {
            Some(x) => x,
            None => { return None; },
        };
        let confidence = match decode_field::<Number>(v, "confidence") {
            Some(x) => x,
            None => { return None; },
        };
        Some(Intent { id, name, confidence })
    }
}

/// An extracted span of the text and its value.
#[derive(Debug)]
pub struct Entity {
    pub id: String,
    pub name: String,
    pub role: String,
    pub start: i16,
    pub end: i16,
    pub body: String,
    pub value: Value,
    pub confidence: Number,
}

/// The content of an [`Entity`].
pub struct EntityView {
    pub id: Seq<char>,
    pub name: Seq<char>,
    pub role: Seq<char>,
    pub start: i16,
    pub end: i16,
    pub body: Seq<char>,
    pub value: JsonView,
    pub confidence: Number,
}

impl View for Entity {
    type V = EntityView;

    open spec fn view(&self) -> EntityView {
        EntityView {
            id: self.id@,
            name: self.name@,
            role: self.role@,
            start: self.start,
            end: self.end,
            body: self.body@,
            value: json_view(self.value),
            confidence: self.confidence,
        }
    }
}

impl Decode for Entity {
    type Model = EntityView;

    open spec fn model(&self) -> EntityView {
        self@
    }

    open spec fn decoded(j: JsonView) -> Option<EntityView> {
        match (
            decoded_field::<String>(j, "id"@),
            decoded_field::<String>(j, "name"@),
            decoded_field::<String>(j, "role"@),
            decoded_field::<i16>(j, "start"@),
            decoded_field::<i16>(j, "end"@),
            decoded_field::<String>(j, "body"@),
            decoded_field::<Value>(j, "value"@),
            decoded_field::<Number>(j, "confidence"@),
        ) {
            (
                Some(id),
                Some(name),
                Some(role),
                Some(start),
                Some(end),
                Some(body),
                Some(value),
                Some(confidence),
            ) => Some(EntityView { id, name, role, start, end, body, value, confidence }),
            _ => None,
        }
    }

    fn decode(v: &Value) -> (r: Option<Entity>) {
        let id = match decode_field::<String>(v, "id") {
            Some(x) => x,
            None => { return None; },
        };
        let name = match decode_field::<String>(v, "name") {
            Some(x) => x,
            None => { return None; },
        };
        let role = match decode_field::<String>(v, "role") {
            Some(x) => x,
            None => { return None; },
        };
        let start = match decode_field::<i16>(v, "start") {
            Some(x) => x,
            None => { return None; },
        };
        let end = match decode_field::<i16>(v, "end") {
            Some(x) => x,
            None => { return None; },
        };
        let body = match decode_field::<String>(v, "body") {
            Some(x) => x,
            None => { return None; },
        };
        let value = match decode_field::<Value>(v, "value") {
            Some(x) => x,
            None => { return None; },
        };
        let confidence = match decode_field::<Number>(v, "confidence") {
            Some(x) => x,
            None => { return None; },
        };
        Some(Entity { id, name, role, start, end, body, value, confidence })
    }
}

/// A detected attribute of the text.
#[derive(Debug)]
pub struct Trait {
    pub id: String,
    pub name: String,
    pub confidence: Number,
}

/// The content of a [`Trait`].
pub struct TraitView {
    pub id: Seq<char>,
    pub name: Seq<char>,
    pub confidence: Number,
}

impl View for Trait {
    type V = TraitView;

    open spec fn view(&self) -> TraitView {
        TraitView { id: self.id@, name: self.name@, confidence: self.confidence }
    }
}

impl Decode for Trait {
    type Model = TraitView;

    open spec fn model(&self) -> TraitView {
        self@
    }

    open spec fn decoded(j: JsonView) -> Option<TraitView> {
        match (
            decoded_field::<String>(j, "id"@),
            decoded_field::<String>(j, "name"@),
            decoded_field::<Number>(j, "confidence"@),
        ) {
            (Some(id), Some(name), Some(confidence)) => Some(TraitView { id, name, confidence }),
            _ => None,
        }
    }

    fn decode(v: &Value) -> (r: Option<Trait>) {
        let id = match decode_field::<String>(v, "id") {
            Some(x) => x,
            None => { return None; },
        };
        let name = match decode_field::<String>(v, "name") {
            Some(x) => x,
            None => { return None; },
        };
        let confidence = match decode_field::<Number>(v, "confidence") {
            Some(x) => x,
            None => { return None; },
        };
        Some(Trait { id, name, confidence })
    }
}

/// Whether a value can be flattened into a list of `R`: it is no object, or
/// every one of its members decodes as an `R`.
pub open spec fn normalizes<R: Decode>(j: JsonView) -> bool {
    j matches JsonView::Object(entries) ==> forall|i: int|
        0 <= i < entries.len() ==> (#[trigger] R::decoded(entries[i].1)) is Some
}

/// An object flattened into a list: what each member's value decodes to, in
/// the members' order, the keys left out. Nothing for a value that is no
/// object.
pub open spec fn normalized<R: Decode>(j: JsonView) -> Option<Seq<R::Model>> {
    match j {
        JsonView::Object(entries) => Some(
            entries.map_values(|m: (Seq<char>, JsonView)| R::decoded(m.1).unwrap()),
        ),
        _ => None,
    }
}

/// Says whether a value can be flattened into a list of `R`.
pub fn can_normalize<R: Decode>(v: &Value) -> (b: bool)
    ensures
        b == normalizes::<R>(json_view(*v)),
{
    match v.as_object() {
        Some(map) => {
            let ghost entries = json_view(*v)->Object_0;
            let list = map_entries(map);
            let mut i: usize = 0;
            while i < list.len()
                invariant
                    i <= list.len(),
                    json_view(*v) == JsonView::Object(entries),
                    list@.len() == entries.len(),
                    forall|k: int|
                        0 <= k < list@.len() ==> json_view(*(#[trigger] list@[k]).1)
                            == entries[k].1,
                    forall|k: int|
                        0 <= k < i ==> (#[trigger] R::decoded(entries[k].1)) is Some,
                decreases list.len() - i,
            {
                let item = R::decode(list[i].1);
                if item.is_none() {
                    return false;
                }
                i += 1;
            }
            true
        },
        None => true,
    }
}

/// Flattens an object into a list: decodes the value of each member, in the
/// members' order, and leaves the keys out.
pub fn parse_map_to_vec<R: Decode>(v: &Value) -> (r: Option<Vec<R>>)
    requires
        normalizes::<R>(json_view(*v)),
    ensures
        match r {
            Some(items) => normalized::<R>(json_view(*v)) == Some(models(items@)),
            None => normalized::<R>(json_view(*v)) is None,
        },
{
    match v.as_object() {
        Some(map) => {
            let ghost entries = json_view(*v)->Object_0;
            let list = map_entries(map);
            let mut out: Vec<R> = Vec::new();
            let mut i: usize = 0;
            while i < list.len()
                invariant
                    i <= list.len(),
                    json_view(*v) == JsonView::Object(entries),
                    normalizes::<R>(json_view(*v)),
                    list@.len() == entries.len(),
                    forall|k: int|
                        0 <= k < list@.len() ==> json_view(*(#[trigger] list@[k]).1)
                            == entries[k].1,
                    out@.len() == i,
                    forall|k: int|
                        0 <= k < i ==> R::decoded(entries[k].1) == Some(
                            (#[trigger] out@[k]).model(),
                        ),
                decreases list.len() - i,
            {
                let item = R::decode(list[i].1);
                out.push(item.unwrap());
                i += 1;
            }
            Some(out)
        },
        None => None,
    }
}

/// What the member with the given key flattens to.
pub open spec fn normalized_field<R: Decode>(j: JsonView, key: Seq<char>) -> Option<
    Seq<R::Model>,
> {
    match j.field(key) {
        Some(x) => normalized::<R>(x),
        None => None,
    }
}

/// The understanding of a text.
#[derive(Debug)]
pub struct Message {
    pub text: String,
    pub intents: Vec<Intent>,
    pub entities: Vec<Vec<Entity>>,
    pub traits: Vec<Trait>,
}

/// The content of a [`Message`].
pub struct MessageView {
    pub text: Seq<char>,
    pub intents: Seq<IntentView>,
    pub entities: Seq<Seq<EntityView>>,
    pub traits: Seq<TraitView>,
}

impl View for Message {
    type V = MessageView;

    open spec fn view(&self) -> MessageView {
        MessageView {
            text: self.text@,
            intents: models(self.intents@),
            entities: models(self.entities@),
            traits: models(self.traits@),
        }
    }
}

/// What is said of a member that is not there.
pub open spec fn missing(key: Seq<char>) -> Seq<char> {
    "missing field `"@ + key + "`"@
}

/// What is said of a member that is there but has another shape than asked.
pub open spec fn invalid(key: Seq<char>) -> Seq<char> {
    "invalid field `"@ + key + "`"@
}

/// A member that has to be there: what it decoded to, or what is said of its
/// failure.
pub open spec fn required<M>(j: JsonView, key: Seq<char>, decoded: Option<M>) -> Result<
    M,
    Seq<char>,
> {
    match decoded {
        Some(x) => Ok(x),
        None => Err(
            if j.field(key) is Some {
                invalid(key)
            } else {
                missing(key)
            },
        ),
    }
}

/// Says why the member with the given key did not decode.
fn fault(v: &Value, key: &str) -> (r: String)
    ensures
        r@ == if json_view(*v).field(key@) is Some {
            invalid(key@)
        } else {
            missing(key@)
        },
{
    let mut out = if member(v, key).is_some() {
        "invalid field `".to_owned()
    } else {
        "missing field `".to_owned()
    };
    out.append(key);
    out.append("`");
    out
}

/// What reading a body as a message gives, from what the JSON decoder made of
/// the body: the message; or a `Bad Response` with code 400, which carries
/// the decoder's error and the body where the body is no JSON, and the name
/// of the failing member and the rendered value where the value is no
/// message.
pub open spec fn message_outcome(parsed: Result<JsonView, Seq<char>>, body: Seq<u8>) -> Result<
    MessageView,
    ErrorView,
> {
    match parsed {
        Err(text) => Err(
            ErrorView {
                name: "Bad Response"@,
                message: text,
                code: 400,
                debug: bytes_debug(body),
            },
        ),
        Ok(j) => match Message::decoded(j) {
            Ok(m) => Ok(m),
            Err(text) => Err(
                ErrorView {
                    name: "Bad Response"@,
                    message: text,
                    code: 400,
                    debug: json_debug(j),
                },
            ),
        },
    }
}

/// The content of the result of reading a body as a message.
pub open spec fn outcome_view(r: Result<Message, Error>) -> Result<MessageView, ErrorView> {
    match r {
        Ok(m) => Ok(m@),
        Err(e) => Err(e@),
    }
}

/// The content of what the JSON decoder made of a body.
pub open spec fn parsed_view(parsed: Result<Value, String>) -> Result<JsonView, Seq<char>> {
    match parsed {
        Ok(v) => Ok(json_view(v)),
        Err(text) => Err(text@),
    }
}

impl Message {
    /// The values that can be decoded without meeting a member of `entities`
    /// or of `traits` that does not decode.
    pub open spec fn accepts(j: JsonView) -> bool {
        &&& j.field("entities"@) matches Some(x) ==> normalizes::<Vec<Entity>>(x)
        &&& j.field("traits"@) matches Some(x) ==> normalizes::<Trait>(x)
    }

    /// What a JSON value decodes to: an object with a string `text`, an array
    /// of intents `intents`, and objects `entities` and `traits`, which are
    /// flattened. Other members are passed over. Where a member is missing or
    /// has another shape, the first such member is named.
    pub open spec fn decoded(j: JsonView) -> Result<MessageView, Seq<char>> {
        match required(j, "text"@, decoded_field::<String>(j, "text"@)) {
            Err(text) => Err(text),
            Ok(text) => match required(
                j,
                "intents"@,
                decoded_field::<Vec<Intent>>(j, "intents"@),
            ) {
                Err(text) => Err(text),
                Ok(intents) => match required(
                    j,
                    "entities"@,
                    normalized_field::<Vec<Entity>>(j, "entities"@),
                ) {
                    Err(text) => Err(text),
                    Ok(entities) => match required(
                        j,
                        "traits"@,
                        normalized_field::<Trait>(j, "traits"@),
                    ) {
                        Err(text) => Err(text),
                        Ok(traits) => Ok(MessageView { text, intents, entities, traits }),
                    },
                },
            },
        }
    }

    /// Says whether a value can be decoded without meeting a member of
    /// `entities` or of `traits` that does not decode.
    pub fn can_decode(v: &Value) -> (b: bool)
        ensures
            b == Self::accepts(json_view(*v)),
    {
        let entities = match member(v, "entities") {
            Some(x) => can_normalize::<Vec<Entity>>(x),
            None => true,
        };
        let traits = match member(v, "traits") {
            Some(x) => can_normalize::<Trait>(x),
            None => true,
        };
        entities && traits
    }

    /// Decodes a message out of a JSON value, or says which member failed.
    pub fn from_json(v: &Value) -> (r: Result<Message, String>)
        requires
            Self::accepts(json_view(*v)),
        ensures
            match r {
                Ok(m) => Self::decoded(json_view(*v)) == Ok::<MessageView, Seq<char>>(m@),
                Err(text) => Self::decoded(json_view(*v)) == Err::<MessageView, Seq<char>>(text@),
            },
    {
        let text = match decode_field::<String>(v, "text") {
            Some(x) => x,
            None => { return Err(fault(v, "text")); },
        };
        let intents = match decode_field::<Vec<Intent>>(v, "intents") {
            Some(x) => x,
            None => { return Err(fault(v, "intents")); },
        };
        let entities = match member(v, "entities") {
            Some(x) => match parse_map_to_vec::<Vec<Entity>>(x) {
                Some(items) => items,
                None => { return Err(fault(v, "entities")); },
            },
            None => { return Err(fault(v, "entities")); },
        };
        let traits = match member(v, "traits") {
            Some(x) => match parse_map_to_vec::<Trait>(x) {
                Some(items) => items,
                None => { return Err(fault(v, "traits")); },
            },
            None => { return Err(fault(v, "traits")); },
        };
        Ok(Message { text, intents, entities, traits })
    }

    /// Reads a body as a message, given what the JSON decoder made of it.
    pub fn from_parsed(parsed: Result<Value, String>, body: &[u8]) -> (r: Result<Message, Error>)
        requires
            parsed matches Ok(v) ==> Self::accepts(json_view(v)),
        ensures
            outcome_view(r) == message_outcome(parsed_view(parsed), body@),
    {
        match parsed {
            Err(text) => Err(Error::new("Bad Response", text, 400, debug_bytes(body))),
            Ok(v) => match Message::from_json(&v) {
                Ok(m) => Ok(m),
                Err(text) => Err(Error::new("Bad Response", text, 400, debug_value(&v))),
            },
        }
    }
}

/// A body is read as a message by decoding it as JSON and the JSON as a
/// message.
impl ParseBody<Message> for Endpoint {
    open spec fn accepts(&self, body: Seq<u8>) -> bool {
        json_parsed(body) matches Ok(j) ==> Message::accepts(j)
    }

    open spec fn parses_to(&self, body: Seq<u8>, r: Result<Message, Error>) -> bool {
        outcome_view(r) == message_outcome(json_parsed(body), body)
    }

    fn parse_body(&self, body: &[u8]) -> (r: Result<Message, Error>) {
        Message::from_parsed(from_slice(body), body)
    }

    fn can_parse(&self, body: &[u8]) -> (b: bool) {
        match from_slice(body) {
            Ok(v) => Message::can_decode(&v),
            Err(_) => true,
        }
    }
}

} // verus!
