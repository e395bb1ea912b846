//! The envelope `{ "type": ..., "data": ... }` that wraps every bus frame.

use crate::json::{
    json_model, json_parse, json_render, member, members_model, model_member, model_text,
    object_value, parse_json, render, text_of, text_value, utf8_text, JsonModel,
};
use vstd::prelude::*;
use vstd::utf8::{decode_utf8, valid_utf8};

verus! {

/// Why a frame is not an envelope.
#[derive(Clone, Copy, Debug, PartialEq, Eq, Structural)]
pub enum DecodeError {
    /// The bytes are not valid UTF-8.
    NotUtf8,
    /// The text is not JSON.
    Syntax,
    /// The JSON value has no member `type` that is a string.
    MissingType,
}

/// An envelope as mathematics: its type, and the whole JSON value it was
/// read from or will be written as.
pub struct EnvelopeModel {
    pub msg_type: Seq<char>,
    pub message: JsonModel,
}

/// The string under `key` in the `data` member of `message`, if `data` is an
/// object that has such a member and the member is a string.
pub open spec fn data_text(message: JsonModel, key: Seq<char>) -> Option<Seq<char>> {
    match model_member(message, "data"@) {
        Some(data) => match model_member(data, key) {
            Some(field) => model_text(field),
            None => None,
        },
        None => None,
    }
}

/// The envelope that a JSON value is: its string member `type` and the
/// value itself, or an error where it has no such member.
pub open spec fn typed(message: JsonModel) -> Result<EnvelopeModel, DecodeError> {
    match model_member(message, "type"@) {
        Some(JsonModel::Text(t)) => Ok(EnvelopeModel { msg_type: t, message }),
        _ => Err(DecodeError::MissingType),
    }
}

/// What a frame decodes to: the envelope, or the reason why it is
/// malformed.
pub open spec fn decoded(raw: Seq<u8>) -> Result<EnvelopeModel, DecodeError> {
    if !valid_utf8(raw) {
        Err(DecodeError::NotUtf8)
    } else {
        match json_parse(decode_utf8(raw)) {
            None => Err(DecodeError::Syntax),
            Some(message) => typed(message),
        }
    }
}

/// The JSON value of an envelope made from a type and a payload.
pub open spec fn framed(msg_type: Seq<char>, data: JsonModel) -> JsonModel {
    JsonModel::Object(
        Map::<Seq<char>, JsonModel>::empty().insert("type"@, JsonModel::Text(msg_type)).insert(
            "data"@,
            data,
        ),
    )
}

/// One bus message. Its `type` is always present and is a string.
#[derive(Debug, PartialEq, Eq)]
pub struct BusEnvelope {
    msg_type: String,
    message: serde_json::Value,
}

impl View for BusEnvelope {
    type V = EnvelopeModel;

    closed spec fn view(&self) -> EnvelopeModel {
        EnvelopeModel { msg_type: self.msg_type@, message: json_model(self.message) }
    }
}

impl BusEnvelope {
    #[verifier::type_invariant]
    spec fn type_is_member(&self) -> bool {
        model_member(json_model(self.message), "type"@) == Some(JsonModel::Text(self.msg_type@))
    }

    /// Makes the envelope `{ "type": msg_type, "data": data }`.
    pub fn new(msg_type: &str, data: serde_json::Value) -> (r: BusEnvelope)
        ensures
            r@.msg_type == msg_type@,
            r@.message == framed(msg_type@, json_model(data)),
    {
        let mut fields: Vec<(String, serde_json::Value)> = Vec::new();
        fields.push(("type".to_owned(), text_value(msg_type)));
        fields.push(("data".to_owned(), data));
        proof {
            reveal_strlit("type");
            reveal_strlit("data");
            assert("type"@ != "data"@) by {
                assert("type"@[0] == 't');
                assert("data"@[0] == 'd');
            }
            let f = fields@;
            assert(f.drop_last().drop_last().len() == 0);
            reveal_with_fuel(members_model, 3);
            assert(members_model(f) =~= Map::<Seq<char>, JsonModel>::empty().insert(
                "type"@,
                JsonModel::Text(msg_type@),
            ).insert("data"@, json_model(data)));
        }
        let message = object_value(fields);
        BusEnvelope { msg_type: msg_type.to_owned(), message }
    }

    /// Takes a JSON value for an envelope. It is one exactly where it has a
    /// string member `type`.
    pub fn from_value(message: serde_json::Value) -> (r: Result<BusEnvelope, DecodeError>)
        ensures
            match r {
                Ok(e) => typed(json_model(message)) == Ok::<EnvelopeModel, DecodeError>(e@),
                Err(k) => typed(json_model(message)) == Err::<EnvelopeModel, DecodeError>(k),
            },
    {
        let found = match member(&message, "type") {
            Some(t) => text_of(t),
            None => None,
        };
        match found {
            Some(t) => {
                let msg_type = t.to_owned();
                Ok(BusEnvelope { msg_type, message })
            },
            None => Err(DecodeError::MissingType),
        }
    }

    /// Reads a frame. It is an envelope exactly where the bytes are UTF-8,
    /// the text is JSON, and the value has a string member `type`.
    pub fn decode(raw: &[u8]) -> (r: Result<BusEnvelope, DecodeError>)
        ensures
            match r {
                Ok(e) => decoded(raw@) == Ok::<EnvelopeModel, DecodeError>(e@),
                Err(k) => decoded(raw@) == Err::<EnvelopeModel, DecodeError>(k),
            },
    {
        let text = match utf8_text(raw) {
            Some(t) => t,
            None => { return Err(DecodeError::NotUtf8); },
        };
        match parse_json(text) {
            Ok(message) => BusEnvelope::from_value(message),
            Err(_) => Err(DecodeError::Syntax),
        }
    }

    /// The compact JSON text of the envelope, as it goes onto the bus.
    pub fn encode(&self) -> (r: String)
        ensures
            r@ == json_render(self@.message),
    {
        render(&self.message)
    }

    /// The envelope's type, which is the member `type` of its JSON value.
    pub fn msg_type(&self) -> (r: &str)
        ensures
            r@ == self@.msg_type,
            model_member(self@.message, "type"@) == Some(JsonModel::Text(r@)),
    {
        proof {
            use_type_invariant(self);
        }
        self.msg_type.as_str()
    }

    /// The string under `key` in the envelope's `data`, if there is one.
    pub fn data_str(&self, key: &str) -> (r: Option<&str>)
        ensures
            match r {
                Some(s) => data_text(self@.message, key@) == Some(s@),
                None => data_text(self@.message, key@) is None,
            },
    {
        match member(&self.message, "data") {
            Some(data) => match member(data, key) {
                Some(field) => text_of(field),
                None => None,
            },
            None => None,
        }
    }
}

} // verus!
