//! Reading answers from received frames.
//!
//! A frame is the text of one flat JSON object. Its member `messageID` names
//! the kind of answer, and the members of that kind stand beside it under
//! their wire names. The set of kinds is closed: a frame with any other id is
//! no answer.

use crate::answers::{
    Answer, AnswerCustomMessage, AnswerError, AnswerGameSaved, AnswerKind, AnswerNewObject,
    AnswerObjectCreated, AnswerPrint, AnswerReload, AnswerReturn, AnswerView,
};
use crate::error::{DecodeError, Field};
use crate::json::{
    json_member, json_parse, json_str, json_u64, null_value, parse_value, value_member,
};
use serde_json::Value;
use vstd::prelude::*;

verus! {

/// JSON `null`: the value that the text `null` is read as.
pub open spec fn json_null() -> Value {
    json_parse("null"@)->0
}

/// The value of the member `field` of `frame`. The member must be there.
pub open spec fn value_at(frame: Value, field: Field) -> Result<Value, DecodeError> {
    match json_member(frame, field.wire_name()) {
        Some(member) => Ok(member),
        None => Err(DecodeError::Field(field)),
    }
}

/// The text of the member `field` of `frame`. The member must be there and
/// hold a string.
pub open spec fn text_at(frame: Value, field: Field) -> Result<Seq<char>, DecodeError> {
    match json_member(frame, field.wire_name()) {
        Some(member) => match json_str(member) {
            Some(text) => Ok(text),
            None => Err(DecodeError::Field(field)),
        },
        None => Err(DecodeError::Field(field)),
    }
}

/// The number in the member `field` of `frame`. The member must be there and
/// hold an unsigned integer.
pub open spec fn number_at(frame: Value, field: Field) -> Result<u64, DecodeError> {
    match json_member(frame, field.wire_name()) {
        Some(member) => match json_u64(member) {
            Some(number) => Ok(number),
            None => Err(DecodeError::Field(field)),
        },
        None => Err(DecodeError::Field(field)),
    }
}

/// What a script returned, read from the member that carries it. A missing
/// member stands for `null`. A string that is a JSON text stands for what the
/// text holds; any other string, and any value that is no string, stands for
/// itself.
pub open spec fn return_value_of(member: Option<Value>) -> Value {
    match member {
        None => json_null(),
        Some(value) => match json_str(value) {
            Some(text) => match json_parse(text) {
                Some(inner) => inner,
                None => value,
            },
            None => value,
        },
    }
}

/// A result with the answer in it replaced by its view.
pub open spec fn viewed<T: View>(outcome: Result<T, DecodeError>) -> Result<T::V, DecodeError> {
    match outcome {
        Ok(answer) => Ok(answer@),
        Err(fault) => Err(fault),
    }
}

impl AnswerView {
    /// The answer of kind `NewObject` that `frame` holds.
    pub open spec fn new_object_of(frame: Value) -> Result<AnswerView, DecodeError> {
        match value_at(frame, Field::ScriptStates) {
            Ok(script_states) => Ok(AnswerView::NewObject { script_states }),
            Err(fault) => Err(fault),
        }
    }

    /// The answer of kind `Reload` that `frame` holds.
    pub open spec fn reload_of(frame: Value) -> Result<AnswerView, DecodeError> {
        match text_at(frame, Field::SavePath) {
            Ok(save_path) => match value_at(frame, Field::ScriptStates) {
                Ok(script_states) => Ok(AnswerView::Reload { save_path, script_states }),
                Err(fault) => Err(fault),
            },
            Err(fault) => Err(fault),
        }
    }

    /// The answer of kind `Print` that `frame` holds.
    pub open spec fn print_of(frame: Value) -> Result<AnswerView, DecodeError> {
        match text_at(frame, Field::Message) {
            Ok(message) => Ok(AnswerView::Print { message }),
            Err(fault) => Err(fault),
        }
    }

    /// The answer of kind `Error` that `frame` holds.
    pub open spec fn error_of(frame: Value) -> Result<AnswerView, DecodeError> {
        match text_at(frame, Field::Error) {
            Ok(error) => match text_at(frame, Field::Guid) {
                Ok(guid) => match text_at(frame, Field::ErrorMessagePrefix) {
                    Ok(error_message_prefix) => Ok(
                        AnswerView::Error { error, guid, error_message_prefix },
                    ),
                    Err(fault) => Err(fault),
                },
                Err(fault) => Err(fault),
            },
            Err(fault) => Err(fault),
        }
    }

    /// The answer of kind `CustomMessage` that `frame` holds.
    pub open spec fn custom_message_of(frame: Value) -> Result<AnswerView, DecodeError> {
        match value_at(frame, Field::CustomMessage) {
            Ok(custom_message) => Ok(AnswerView::CustomMessage { custom_message }),
            Err(fault) => Err(fault),
        }
    }

    /// The answer of kind `Return` that `frame` holds. The returned value is
    /// the one member that may be missing.
    pub open spec fn return_of(frame: Value) -> Result<AnswerView, DecodeError> {
        match number_at(frame, Field::ReturnId) {
            Ok(return_id) => Ok(
                AnswerView::Return {
                    return_id,
                    return_value: return_value_of(
                        json_member(frame, Field::ReturnValue.wire_name()),
                    ),
                },
            ),
            Err(fault) => Err(fault),
        }
    }

    /// The answer of kind `ObjectCreated` that `frame` holds.
    pub open spec fn object_created_of(frame: Value) -> Result<AnswerView, DecodeError> {
        match text_at(frame, Field::Guid) {
            Ok(guid) => Ok(AnswerView::ObjectCreated { guid }),
            Err(fault) => Err(fault),
        }
    }

    /// The answer of the given kind that `frame` holds: every member that the
    /// kind requires must be there under its wire name and hold a value of the
    /// member's type. Members that the kind does not have are passed over,
    /// and where several members fail the error names the first of them in
    /// the order of the kind's fields.
    pub open spec fn of_kind(kind: AnswerKind, frame: Value) -> Result<AnswerView, DecodeError> {
        match kind {
            AnswerKind::NewObject => Self::new_object_of(frame),
            AnswerKind::Reload => Self::reload_of(frame),
            AnswerKind::Print => Self::print_of(frame),
            AnswerKind::Error => Self::error_of(frame),
            AnswerKind::CustomMessage => Self::custom_message_of(frame),
            AnswerKind::Return => Self::return_of(frame),
            AnswerKind::GameSaved => Ok(AnswerView::GameSaved),
            AnswerKind::ObjectCreated => Self::object_created_of(frame),
        }
    }

    /// The answer that the JSON value `frame` holds: its member `messageID`
    /// names the kind, and the other members are read as that kind's.
    pub open spec fn of_value(frame: Value) -> Result<AnswerView, DecodeError> {
        match number_at(frame, Field::MessageId) {
            Err(fault) => Err(fault),
            Ok(id) => match AnswerKind::spec_from_message_id(id) {
                None => Err(DecodeError::UnknownMessageId(id)),
                Some(kind) => Self::of_kind(kind, frame),
            },
        }
    }

    /// The answer that a frame with the given text holds.
    pub open spec fn of_text(text: Seq<char>) -> Result<AnswerView, DecodeError> {
        match json_parse(text) {
            None => Err(DecodeError::Syntax),
            Some(frame) => Self::of_value(frame),
        }
    }
}

/// The set of answers is closed: a frame whose `messageID` is above 7 holds no
/// answer, whatever else it holds, and the error names the id.
pub proof fn lemma_unknown_message_id(frame: Value, id: u64)
    requires
        number_at(frame, Field::MessageId) == Ok::<u64, DecodeError>(id),
        id > 7,
    ensures
        AnswerView::of_value(frame) == Err::<AnswerView, DecodeError>(
            DecodeError::UnknownMessageId(id),
        ),
{
}

/// A text that parses to a frame whose `messageID` is above 7 is no answer.
pub proof fn lemma_unknown_message_id_in_text(text: Seq<char>, frame: Value, id: u64)
    requires
        json_parse(text) == Some(frame),
        number_at(frame, Field::MessageId) == Ok::<u64, DecodeError>(id),
        id > 7,
    ensures
        AnswerView::of_text(text) == Err::<AnswerView, DecodeError>(
            DecodeError::UnknownMessageId(id),
        ),
{
}

/// The kind of an answer is the one that the frame's `messageID` stands for.
pub proof fn lemma_kind_follows_message_id(frame: Value)
    ensures
        AnswerView::of_value(frame) matches Ok(answer) ==> number_at(frame, Field::MessageId)
            == Ok::<u64, DecodeError>(answer.kind().spec_message_id()),
{
}

/// A frame whose `messageID` stands for a kind holds what it holds as an
/// answer of that kind.
pub proof fn lemma_known_message_id(frame: Value, kind: AnswerKind)
    requires
        number_at(frame, Field::MessageId) == Ok::<u64, DecodeError>(kind.spec_message_id()),
    ensures
        AnswerView::of_value(frame) == AnswerView::of_kind(kind, frame),
{
}

/// A frame that says that the game was saved needs nothing but its id.
pub proof fn lemma_game_saved_needs_no_member(frame: Value)
    requires
        number_at(frame, Field::MessageId) == Ok::<u64, DecodeError>(6),
    ensures
        AnswerView::of_value(frame) == Ok::<AnswerView, DecodeError>(AnswerView::GameSaved),
{
}

/// The text of the member `field` of `frame`.
fn text_field(frame: &Value, field: Field) -> (text: Result<String, DecodeError>)
    ensures
        viewed(text) == text_at(*frame, field),
{
    match value_member(frame, field.name()) {
        Some(member) => match member.as_str() {
            Some(text) => Ok(text.to_owned()),
            None => Err(DecodeError::Field(field)),
        },
        None => Err(DecodeError::Field(field)),
    }
}

/// The number in the member `field` of `frame`.
fn number_field(frame: &Value, field: Field) -> (number: Result<u64, DecodeError>)
    ensures
        number == number_at(*frame, field),
{
    match value_member(frame, field.name()) {
        Some(member) => match member.as_u64() {
            Some(number) => Ok(number),
            None => Err(DecodeError::Field(field)),
        },
        None => Err(DecodeError::Field(field)),
    }
}

/// The value of the member `field` of `frame`.
fn value_field(frame: &Value, field: Field) -> (value: Result<Value, DecodeError>)
    ensures
        value == value_at(*frame, field),
{
    match value_member(frame, field.name()) {
        Some(member) => Ok(member.clone()),
        None => Err(DecodeError::Field(field)),
    }
}

/// Reads what a script returned from the member that carries it: a string is
/// read once more as a JSON text and kept as it is where that fails.
pub fn read_return_value(member: Option<&Value>) -> (value: Value)
    ensures
        value == return_value_of(
            match member {
                Some(v) => Some(*v),
                None => None,
            },
        ),
{
    match member {
        None => null_value(),
        Some(outer) => match outer.as_str() {
            Some(text) => match parse_value(text) {
                Some(inner) => inner,
                None => outer.clone(),
            },
            None => outer.clone(),
        },
    }
}

impl AnswerNewObject {
    /// Reads the answer from a frame of its kind.
    pub fn from_value(frame: &Value) -> (outcome: Result<Self, DecodeError>)
        ensures
            viewed(outcome) == AnswerView::new_object_of(*frame),
    {
        match value_field(frame, Field::ScriptStates) {
            Ok(script_states) => Ok(Self { script_states }),
            Err(fault) => Err(fault),
        }
    }
}

impl AnswerReload {
    /// Reads the answer from a frame of its kind.
    pub fn from_value(frame: &Value) -> (outcome: Result<Self, DecodeError>)
        ensures
            viewed(outcome) == AnswerView::reload_of(*frame),
    {
        match text_field(frame, Field::SavePath) {
            Ok(save_path) => match value_field(frame, Field::ScriptStates) {
                Ok(script_states) => Ok(Self { save_path, script_states }),
                Err(fault) => Err(fault),
            },
            Err(fault) => Err(fault),
        }
    }
}

impl AnswerPrint {
    /// Reads the answer from a frame of its kind.
    pub fn from_value(frame: &Value) -> (outcome: Result<Self, DecodeError>)
        ensures
            viewed(outcome) == AnswerView::print_of(*frame),
    {
        match text_field(frame, Field::Message) {
            Ok(message) => Ok(Self { message }),
            Err(fault) => Err(fault),
        }
    }
}

impl AnswerError {
    /// Reads the answer from a frame of its kind.
    pub fn from_value(frame: &Value) -> (outcome: Result<Self, DecodeError>)
        ensures
            viewed(outcome) == AnswerView::error_of(*frame),
    {
        match text_field(frame, Field::Error) {
            Ok(error) => match text_field(frame, Field::Guid) {
                Ok(guid) => match text_field(frame, Field::ErrorMessagePrefix) {
                    Ok(error_message_prefix) => Ok(Self { error, guid, error_message_prefix }),
                    Err(fault) => Err(fault),
                },
                Err(fault) => Err(fault),
            },
            Err(fault) => Err(fault),
        }
    }
}

impl AnswerCustomMessage {
    /// Reads the answer from a frame of its kind.
    pub fn from_value(frame: &Value) -> (outcome: Result<Self, DecodeError>)
        ensures
            viewed(outcome) == AnswerView::custom_message_of(*frame),
    {
        match value_field(frame, Field::CustomMessage) {
            Ok(custom_message) => Ok(Self { custom_message }),
            Err(fault) => Err(fault),
        }
    }
}

impl AnswerReturn {
    /// Reads the answer from a frame of its kind.
    pub fn from_value(frame: &Value) -> (outcome: Result<Self, DecodeError>)
        ensures
            viewed(outcome) == AnswerView::return_of(*frame),
    {
        match number_field(frame, Field::ReturnId) {
            Ok(return_id) => {
                let member = value_member(frame, Field::ReturnValue.name());
                Ok(Self { return_id, return_value: read_return_value(member) })
            },
            Err(fault) => Err(fault),
        }
    }
}

impl AnswerGameSaved {
    /// Reads the answer from a frame of its kind: it has no member to read.
    pub fn from_value(frame: &Value) -> (outcome: Result<Self, DecodeError>)
        ensures
            viewed(outcome) == Ok::<AnswerView, DecodeError>(AnswerView::GameSaved),
    {
        Ok(Self {  })
    }
}

impl AnswerObjectCreated {
    /// Reads the answer from a frame of its kind.
    pub fn from_value(frame: &Value) -> (outcome: Result<Self, DecodeError>)
        ensures
            viewed(outcome) == AnswerView::object_created_of(*frame),
    {
        match text_field(frame, Field::Guid) {
            Ok(guid) => Ok(Self { guid }),
            Err(fault) => Err(fault),
        }
    }
}

impl Answer {
    /// Reads an answer of the given kind from a frame that was parsed as JSON.
    pub fn of_kind(kind: AnswerKind, frame: &Value) -> (outcome: Result<Answer, DecodeError>)
        ensures
            viewed(outcome) == AnswerView::of_kind(kind, *frame),
    {
        match kind {
            AnswerKind::NewObject => match AnswerNewObject::from_value(frame) {
                Ok(answer) => Ok(Answer::AnswerNewObject(answer)),
                Err(fault) => Err(fault),
            },
            AnswerKind::Reload => match AnswerReload::from_value(frame) {
                Ok(answer) => Ok(Answer::AnswerReload(answer)),
                Err(fault) => Err(fault),
            },
            AnswerKind::Print => match AnswerPrint::from_value(frame) {
                Ok(answer) => Ok(Answer::AnswerPrint(answer)),
                Err(fault) => Err(fault),
            },
            AnswerKind::Error => match AnswerError::from_value(frame) {
                Ok(answer) => Ok(Answer::AnswerError(answer)),
                Err(fault) => Err(fault),
            },
            AnswerKind::CustomMessage => match AnswerCustomMessage::from_value(frame) {
                Ok(answer) => Ok(Answer::AnswerCustomMessage(answer)),
                Err(fault) => Err(fault),
            },
            AnswerKind::Return => match AnswerReturn::from_value(frame) {
                Ok(answer) => Ok(Answer::AnswerReturn(answer)),
                Err(fault) => Err(fault),
            },
            AnswerKind::GameSaved => match AnswerGameSaved::from_value(frame) {
                Ok(answer) => Ok(Answer::AnswerGameSaved(answer)),
                Err(fault) => Err(fault),
            },
            AnswerKind::ObjectCreated => match AnswerObjectCreated::from_value(frame) {
                Ok(answer) => Ok(Answer::AnswerObjectCreated(answer)),
                Err(fault) => Err(fault),
            },
        }
    }

    /// Reads an answer from a frame that was parsed as JSON.
    pub fn from_value(frame: &Value) -> (outcome: Result<Answer, DecodeError>)
        ensures
            viewed(outcome) == AnswerView::of_value(*frame),
    {
        match number_field(frame, Field::MessageId) {
            Err(fault) => Err(fault),
            Ok(id) => match AnswerKind::from_message_id(id) {
                None => Err(DecodeError::UnknownMessageId(id)),
                Some(kind) => Answer::of_kind(kind, frame),
            },
        }
    }

    /// Reads an answer from the text of a received frame.
    pub fn decode(text: &str) -> (outcome: Result<Answer, DecodeError>)
        ensures
            viewed(outcome) == AnswerView::of_text(text@),
    {
        match parse_value(text) {
            Some(frame) => Answer::from_value(&frame),
            None => Err(DecodeError::Syntax),
        }
    }
}

} // verus!
