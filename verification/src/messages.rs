//! Outgoing messages: what this client sends to the game.

use crate::error::Error;
use crate::json::{json_number, json_string, json_text, number_value, string_value, value_text};
use serde_json::Value;
use vstd::prelude::*;
use vstd::std_specs::convert::TryFromSpecImpl;

verus! {

/// An outgoing message.
#[derive(Debug, Clone, PartialEq, Eq)]
pub enum Message {
    /// Asks for the scripts of every object.
    MessageGetScripts(MessageGetScripts),
    /// Updates scripts and reloads the save.
    MessageReload(MessageReload),
    /// Hands a custom value to the loaded game.
    MessageCustomMessage(MessageCustomMessage),
    /// Runs a Lua script.
    MessageExecute(MessageExecute),
}

/// Asks for a list that holds the state of every object. The game replies
/// with an `AnswerReload`.
#[derive(Debug, Clone, PartialEq, Eq)]
pub struct MessageGetScripts {}

/// Updates the Lua script and the UI XML of every object listed, then reloads
/// the save as "Save & Play" does. The game replies with an `AnswerReload`.
///
/// An object that is listed without a `script` or a `ui` key has that script
/// or that XML deleted.
#[derive(Debug, Clone, PartialEq, Eq)]
pub struct MessageReload {
    /// The objects and their states.
    pub script_states: Value,
}

/// Hands a value to the `onExternalMessage` handler of the loaded game. The
/// game calls the handler only if the value is a JSON object, and sends no
/// reply of its own.
#[derive(Debug, Clone, PartialEq, Eq)]
pub struct MessageCustomMessage {
    /// The value that is handed on.
    pub custom_message: Value,
}

/// Runs a Lua script. What the script returns comes back in an
/// `AnswerReturn`. With the guid `-1` the script runs globally.
#[derive(Debug, Clone, PartialEq, Eq)]
pub struct MessageExecute {
    /// The id that the reply repeats.
    pub return_id: u64,
    /// The object that the script runs on.
    pub guid: String,
    /// The script.
    pub script: String,
}

/// What a [`Message`] holds, with strings as sequences of characters.
pub enum MessageView {
    GetScripts,
    Reload { script_states: Value },
    CustomMessage { custom_message: Value },
    Execute { return_id: u64, guid: Seq<char>, script: Seq<char> },
}

impl View for MessageGetScripts {
    type V = MessageView;

    open spec fn view(&self) -> MessageView {
        MessageView::GetScripts
    }
}

impl View for MessageReload {
    type V = MessageView;

    open spec fn view(&self) -> MessageView {
        MessageView::Reload { script_states: self.script_states }
    }
}

impl View for MessageCustomMessage {
    type V = MessageView;

    open spec fn view(&self) -> MessageView {
        MessageView::CustomMessage { custom_message: self.custom_message }
    }
}

impl View for MessageExecute {
    type V = MessageView;

    open spec fn view(&self) -> MessageView {
        MessageView::Execute { return_id: self.return_id, guid: self.guid@, script: self.script@ }
    }
}

impl View for Message {
    type V = MessageView;

    open spec fn view(&self) -> MessageView {
        match *self {
            Message::MessageGetScripts(message) => message@,
            Message::MessageReload(message) => message@,
            Message::MessageCustomMessage(message) => message@,
            Message::MessageExecute(message) => message@,
        }
    }
}

/// The id that every execute message carries.
pub const RETURN_ID: u64 = 5;

/// The guid that stands for no object: the script runs globally.
pub open spec fn global_guid() -> Seq<char> {
    seq!['-', '1']
}

/// The number that tells the kinds of message apart on the wire: 0 to 3, by
/// the kind alone.
pub open spec fn id_of(message: MessageView) -> u64 {
    match message {
        MessageView::GetScripts => 0,
        MessageView::Reload { .. } => 1,
        MessageView::CustomMessage { .. } => 2,
        MessageView::Execute { .. } => 3,
    }
}

/// The id of a message as it stands on the wire: the one digit of `id_of`.
pub open spec fn id_text(message: MessageView) -> Seq<char> {
    match message {
        MessageView::GetScripts => "0"@,
        MessageView::Reload { .. } => "1"@,
        MessageView::CustomMessage { .. } => "2"@,
        MessageView::Execute { .. } => "3"@,
    }
}

/// The members that follow the id in a message's wire form, each with the
/// comma before it: the fields of the message's kind under their wire names,
/// in the order in which the game's API lists them, each value as JSON text.
pub open spec fn members_text(message: MessageView) -> Seq<char> {
    match message {
        MessageView::GetScripts => Seq::empty(),
        MessageView::Reload { script_states } => ",\"scriptStates\":"@ + json_text(script_states),
        MessageView::CustomMessage { custom_message } => ",\"customMessage\":"@ + json_text(
            custom_message,
        ),
        MessageView::Execute { return_id, guid, script } => ",\"returnID\":"@ + json_text(
            json_number(return_id),
        ) + ",\"guid\":"@ + json_text(json_string(guid)) + ",\"script\":"@ + json_text(
            json_string(script),
        ),
    }
}

/// The wire form of a message: one flat JSON object that opens with the
/// member `messageID` and goes on with the members of the message's kind.
pub open spec fn wire_text(message: MessageView) -> Seq<char> {
    "{\"messageID\":"@ + id_text(message) + members_text(message) + "}"@
}

impl Message {
    /// The number that tells the kinds of message apart on the wire.
    pub fn message_id(&self) -> (id: u64)
        ensures
            id == id_of(self@),
            id <= 3,
    {
        match self {
            Message::MessageGetScripts(_) => 0,
            Message::MessageReload(_) => 1,
            Message::MessageCustomMessage(_) => 2,
            Message::MessageExecute(_) => 3,
        }
    }

    /// The frame that carries this message to the game.
    pub fn encode(&self) -> (frame: String)
        ensures
            frame@ == wire_text(self@),
    {
        let mut frame = String::from_str("{\"messageID\":");
        match self {
            Message::MessageGetScripts(_) => {
                frame.append("0");
            },
            Message::MessageReload(message) => {
                frame.append("1");
                frame.append(",\"scriptStates\":");
                let states = value_text(&message.script_states);
                frame.append(states.as_str());
            },
            Message::MessageCustomMessage(message) => {
                frame.append("2");
                frame.append(",\"customMessage\":");
                let custom = value_text(&message.custom_message);
                frame.append(custom.as_str());
            },
            Message::MessageExecute(message) => {
                frame.append("3");
                frame.append(",\"returnID\":");
                let id = value_text(&number_value(message.return_id));
                frame.append(id.as_str());
                frame.append(",\"guid\":");
                let guid = value_text(&string_value(message.guid.clone()));
                frame.append(guid.as_str());
                frame.append(",\"script\":");
                let script = value_text(&string_value(message.script.clone()));
                frame.append(script.as_str());
            },
        }
        frame.append("}");
        assert(frame@ =~= wire_text(self@));
        frame
    }
}

impl MessageGetScripts {
    /// A message that asks for the scripts.
    pub fn new() -> (message: Self)
        ensures
            message@ == MessageView::GetScripts,
    {
        Self {  }
    }

    /// This message as a [`Message`].
    pub fn as_message(self) -> (message: Message)
        ensures
            message == Message::MessageGetScripts(self),
    {
        Message::MessageGetScripts(self)
    }
}

impl MessageReload {
    /// A message that updates the listed objects and reloads the save.
    pub fn new(script_states: Value) -> (message: Self)
        ensures
            message@ == (MessageView::Reload { script_states }),
    {
        Self { script_states }
    }

    /// This message as a [`Message`].
    pub fn as_message(self) -> (message: Message)
        ensures
            message == Message::MessageReload(self),
    {
        Message::MessageReload(self)
    }
}

impl MessageCustomMessage {
    /// A message that hands `custom_message` to the game.
    pub fn new(custom_message: Value) -> (message: Self)
        ensures
            message@ == (MessageView::CustomMessage { custom_message }),
    {
        Self { custom_message }
    }

    /// This message as a [`Message`].
    pub fn as_message(self) -> (message: Message)
        ensures
            message == Message::MessageCustomMessage(self),
    {
        Message::MessageCustomMessage(self)
    }
}

impl MessageExecute {
    /// A message that runs `script` globally.
    pub fn new(script: String) -> (message: Self)
        ensures
            message@ == (MessageView::Execute {
                return_id: RETURN_ID,
                guid: global_guid(),
                script: script@,
            }),
    {
        let guid = String::from_str("-1");
        proof {
            reveal_strlit("-1");
            assert(guid@ =~= global_guid());
        }
        Self { return_id: RETURN_ID, guid, script }
    }

    /// A message that runs `script` on the object `guid`.
    pub fn new_object(script: String, guid: String) -> (message: Self)
        ensures
            message@ == (MessageView::Execute {
                return_id: RETURN_ID,
                guid: guid@,
                script: script@,
            }),
    {
        Self { return_id: RETURN_ID, guid, script }
    }

    /// This message as a [`Message`].
    pub fn as_message(self) -> (message: Message)
        ensures
            message == Message::MessageExecute(self),
    {
        Message::MessageExecute(self)
    }
}

impl TryFrom<Message> for MessageGetScripts {
    type Error = Error;

    fn try_from(message: Message) -> (narrowed: Result<Self, Error>) {
        match message {
            Message::MessageGetScripts(message) => Ok(message),
            other => Err(Error::MessageError(other)),
        }
    }
}

impl TryFromSpecImpl<Message> for MessageGetScripts {
    open spec fn obeys_try_from_spec() -> bool {
        true
    }

    open spec fn try_from_spec(message: Message) -> Result<Self, Error> {
        match message {
            Message::MessageGetScripts(message) => Ok(message),
            other => Err(Error::MessageError(other)),
        }
    }
}

impl TryFrom<Message> for MessageReload {
    type Error = Error;

    fn try_from(message: Message) -> (narrowed: Result<Self, Error>) {
        match message {
            Message::MessageReload(message) => Ok(message),
            other => Err(Error::MessageError(other)),
        }
    }
}

impl TryFromSpecImpl<Message> for MessageReload {
    open spec fn obeys_try_from_spec() -> bool {
        true
    }

    open spec fn try_from_spec(message: Message) -> Result<Self, Error> {
        match message {
            Message::MessageReload(message) => Ok(message),
            other => Err(Error::MessageError(other)),
        }
    }
}

impl TryFrom<Message> for MessageCustomMessage {
    type Error = Error;

    fn try_from(message: Message) -> (narrowed: Result<Self, Error>) {
        match message {
            Message::MessageCustomMessage(message) => Ok(message),
            other => Err(Error::MessageError(other)),
        }
    }
}

impl TryFromSpecImpl<Message> for MessageCustomMessage {
    open spec fn obeys_try_from_spec() -> bool {
        true
    }

    open spec fn try_from_spec(message: Message) -> Result<Self, Error> {
        match message {
            Message::MessageCustomMessage(message) => Ok(message),
            other => Err(Error::MessageError(other)),
        }
    }
}

impl TryFrom<Message> for MessageExecute {
    type Error = Error;

    fn try_from(message: Message) -> (narrowed: Result<Self, Error>) {
        match message {
            Message::MessageExecute(message) => Ok(message),
            other => Err(Error::MessageError(other)),
        }
    }
}

impl TryFromSpecImpl<Message> for MessageExecute {
    open spec fn obeys_try_from_spec() -> bool {
        true
    }

    open spec fn try_from_spec(message: Message) -> Result<Self, Error> {
        match message {
            Message::MessageExecute(message) => Ok(message),
            other => Err(Error::MessageError(other)),
        }
    }
}

} // verus!
