//! The errors of the protocol layer.

use crate::answers::{Answer, AnswerKind, AnswerView};
use crate::json::{json_number, json_text, number_value, value_text};
use crate::messages::{Message, MessageView};
use vstd::prelude::*;

verus! {

/// A member of an answer's wire form.
#[derive(Debug, Clone, Copy, PartialEq, Eq, Structural)]
pub enum Field {
    /// The number that names the answer's kind.
    MessageId,
    /// The objects and their states.
    ScriptStates,
    /// The path of the save file.
    SavePath,
    /// A printed line.
    Message,
    /// What went wrong in a script.
    Error,
    /// The guid of an object.
    Guid,
    /// What the game prints before an error.
    ErrorMessagePrefix,
    /// A custom value.
    CustomMessage,
    /// The id of the message that ran a script.
    ReturnId,
    /// What a script returned.
    ReturnValue,
}

impl Field {
    /// The name of the member on the wire.
    pub open spec fn wire_name(self) -> Seq<char> {
        match self {
            Field::MessageId => "messageID"@,
            Field::ScriptStates => "scriptStates"@,
            Field::SavePath => "savePath"@,
            Field::Message => "message"@,
            Field::Error => "error"@,
            Field::Guid => "guid"@,
            Field::ErrorMessagePrefix => "errorMessagePrefix"@,
            Field::CustomMessage => "customMessage"@,
            Field::ReturnId => "returnID"@,
            Field::ReturnValue => "returnValue"@,
        }
    }

    /// The name of the member on the wire.
    pub fn name(self) -> (name: &'static str)
        ensures
            name@ == self.wire_name(),
    {
        match self {
            Field::MessageId => "messageID",
            Field::ScriptStates => "scriptStates",
            Field::SavePath => "savePath",
            Field::Message => "message",
            Field::Error => "error",
            Field::Guid => "guid",
            Field::ErrorMessagePrefix => "errorMessagePrefix",
            Field::CustomMessage => "customMessage",
            Field::ReturnId => "returnID",
            Field::ReturnValue => "returnValue",
        }
    }
}

/// Why a received frame is no answer.
#[derive(Debug, Clone, Copy, PartialEq, Eq, Structural)]
pub enum DecodeError {
    /// The frame is not a JSON text.
    Syntax,
    /// A member that the answer must have is missing or holds a value of
    /// another type than the member's.
    Field(Field),
    /// The frame's `messageID` is that of no answer.
    UnknownMessageId(u64),
}

/// What can go wrong between this client and the game.
#[derive(Debug, Clone, PartialEq, Eq)]
pub enum Error {
    /// The game could not be reached: most often no save is loaded.
    Connect,
    /// A received frame was no answer.
    Decode(DecodeError),
    /// A message was of another kind than the one asked for.
    MessageError(Message),
    /// An answer was of another kind than the one asked for.
    AnswerError(Answer),
}

/// What an [`Error`] holds, with messages and answers by their views.
pub enum ErrorView {
    Connect,
    Decode(DecodeError),
    MessageError(MessageView),
    AnswerError(AnswerView),
}

impl View for Error {
    type V = ErrorView;

    open spec fn view(&self) -> ErrorView {
        match *self {
            Error::Connect => ErrorView::Connect,
            Error::Decode(fault) => ErrorView::Decode(fault),
            Error::MessageError(message) => ErrorView::MessageError(message@),
            Error::AnswerError(answer) => ErrorView::AnswerError(answer@),
        }
    }
}

/// The name of the type that holds the messages of a kind.
pub open spec fn message_label(message: MessageView) -> Seq<char> {
    match message {
        MessageView::GetScripts => "MessageGetScripts"@,
        MessageView::Reload { .. } => "MessageReload"@,
        MessageView::CustomMessage { .. } => "MessageCustomMessage"@,
        MessageView::Execute { .. } => "MessageExecute"@,
    }
}

/// The name of the type that holds the answers of a kind.
pub open spec fn answer_label(kind: AnswerKind) -> Seq<char> {
    match kind {
        AnswerKind::NewObject => "AnswerNewObject"@,
        AnswerKind::Reload => "AnswerReload"@,
        AnswerKind::Print => "AnswerPrint"@,
        AnswerKind::Error => "AnswerError"@,
        AnswerKind::CustomMessage => "AnswerCustomMessage"@,
        AnswerKind::Return => "AnswerReturn"@,
        AnswerKind::GameSaved => "AnswerGameSaved"@,
        AnswerKind::ObjectCreated => "AnswerObjectCreated"@,
    }
}

/// The line that tells a user of a decoding error.
pub open spec fn decode_error_text(fault: DecodeError) -> Seq<char> {
    match fault {
        DecodeError::Syntax => "the game sent a frame that is not JSON"@,
        DecodeError::Field(field) => "the game sent a frame without a valid "@ + field.wire_name(),
        DecodeError::UnknownMessageId(id) => "unsupported id "@ + json_text(json_number(id)),
    }
}

/// The line that tells a user of an error.
pub open spec fn error_text(error: ErrorView) -> Seq<char> {
    match error {
        ErrorView::Connect => "could not connect to the game: is a save loaded?"@,
        ErrorView::Decode(fault) => decode_error_text(fault),
        ErrorView::MessageError(message) => "message was of type "@ + message_label(message),
        ErrorView::AnswerError(answer) => "answer was of type "@ + answer_label(answer.kind()),
    }
}

impl DecodeError {
    /// The line that tells a user of this error.
    pub fn describe(&self) -> (line: String)
        ensures
            line@ == decode_error_text(*self),
    {
        match self {
            DecodeError::Syntax => String::from_str("the game sent a frame that is not JSON"),
            DecodeError::Field(field) => {
                let mut line = String::from_str("the game sent a frame without a valid ");
                line.append(field.name());
                line
            },
            DecodeError::UnknownMessageId(id) => {
                let mut line = String::from_str("unsupported id ");
                let number = value_text(&number_value(*id));
                line.append(number.as_str());
                line
            },
        }
    }
}

impl Error {
    /// The line that tells a user of this error.
    pub fn describe(&self) -> (line: String)
        ensures
            line@ == error_text(self@),
    {
        match self {
            Error::Connect => String::from_str("could not connect to the game: is a save loaded?"),
            Error::Decode(fault) => fault.describe(),
            Error::MessageError(message) => {
                let mut line = String::from_str("message was of type ");
                line.append(message.label());
                line
            },
            Error::AnswerError(answer) => {
                let mut line = String::from_str("answer was of type ");
                line.append(answer.kind().label());
                line
            },
        }
    }
}

impl Message {
    /// The name of the type that holds the messages of this message's kind.
    pub fn label(&self) -> (name: &'static str)
        ensures
            name@ == message_label(self@),
    {
        match self {
            Message::MessageGetScripts(_) => "MessageGetScripts",
            Message::MessageReload(_) => "MessageReload",
            Message::MessageCustomMessage(_) => "MessageCustomMessage",
            Message::MessageExecute(_) => "MessageExecute",
        }
    }
}

impl AnswerKind {
    /// The name of the type that holds the answers of this kind.
    pub fn label(self) -> (name: &'static str)
        ensures
            name@ == answer_label(self),
    {
        match self {
            AnswerKind::NewObject => "AnswerNewObject",
            AnswerKind::Reload => "AnswerReload",
            AnswerKind::Print => "AnswerPrint",
            AnswerKind::Error => "AnswerError",
            AnswerKind::CustomMessage => "AnswerCustomMessage",
            AnswerKind::Return => "AnswerReturn",
            AnswerKind::GameSaved => "AnswerGameSaved",
            AnswerKind::ObjectCreated => "AnswerObjectCreated",
        }
    }
}

} // verus!
