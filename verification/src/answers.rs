//! Incoming answers: what the game sends to this client.

use crate::error::Error;
use serde_json::Value;
use vstd::prelude::*;
use vstd::std_specs::convert::TryFromSpecImpl;

verus! {

/// An incoming answer.
#[derive(Debug, Clone, PartialEq, Eq)]
pub enum Answer {
    /// An object without a script was opened in the game's editor.
    AnswerNewObject(AnswerNewObject),
    /// A game was loaded, or the scripts were asked for.
    AnswerReload(AnswerReload),
    /// A script printed a line.
    AnswerPrint(AnswerPrint),
    /// A script failed.
    AnswerError(AnswerError),
    /// A script sent a custom value.
    AnswerCustomMessage(AnswerCustomMessage),
    /// An executed script returned.
    AnswerReturn(AnswerReturn),
    /// The game was saved.
    AnswerGameSaved(AnswerGameSaved),
    /// An object was created.
    AnswerObjectCreated(AnswerObjectCreated),
}

/// Sent when "Scripting Editor" is chosen in the game for an object that has
/// no Lua script yet.
#[derive(Debug, Clone, PartialEq, Eq)]
pub struct AnswerNewObject {
    /// The state of the object.
    pub script_states: Value,
}

/// Sent after a game was loaded, with the Lua scripts and the UI XML of the
/// new game, and in reply to `MessageGetScripts` and `MessageReload`.
#[derive(Debug, Clone, PartialEq, Eq)]
pub struct AnswerReload {
    /// The path of the save file.
    pub save_path: String,
    /// The objects and their states.
    pub script_states: Value,
}

/// Sent for every line that a script prints.
#[derive(Debug, Clone, PartialEq, Eq)]
pub struct AnswerPrint {
    /// The line.
    pub message: String,
}

/// Sent for every error of a script.
#[derive(Debug, Clone, PartialEq, Eq)]
pub struct AnswerError {
    /// What went wrong.
    pub error: String,
    /// The object whose script failed.
    pub guid: String,
    /// What the game prints before the error.
    pub error_message_prefix: String,
}

/// Sent when a script calls `sendExternalMessage`.
#[derive(Debug, Clone, PartialEq, Eq)]
pub struct AnswerCustomMessage {
    /// The table that the script sent.
    pub custom_message: Value,
}

/// Sent when a script run by a `MessageExecute` returns.
#[derive(Debug, Clone, PartialEq, Eq)]
pub struct AnswerReturn {
    /// The id of the message that ran the script.
    pub return_id: u64,
    /// What the script returned. A string that holds a JSON text has been read
    /// as that text.
    pub return_value: Value,
}

/// Sent whenever the player saves the game.
#[derive(Debug, Clone, PartialEq, Eq)]
pub struct AnswerGameSaved {}

/// Sent whenever an object is created.
#[derive(Debug, Clone, PartialEq, Eq)]
pub struct AnswerObjectCreated {
    /// The object that was created.
    pub guid: String,
}

/// What an [`Answer`] holds, with strings as sequences of characters.
pub enum AnswerView {
    NewObject { script_states: Value },
    Reload { save_path: Seq<char>, script_states: Value },
    Print { message: Seq<char> },
    Error { error: Seq<char>, guid: Seq<char>, error_message_prefix: Seq<char> },
    CustomMessage { custom_message: Value },
    Return { return_id: u64, return_value: Value },
    GameSaved,
    ObjectCreated { guid: Seq<char> },
}

/// The kinds of answer.
#[derive(Debug, Clone, Copy, PartialEq, Eq, Structural)]
pub enum AnswerKind {
    NewObject,
    Reload,
    Print,
    Error,
    CustomMessage,
    Return,
    GameSaved,
    ObjectCreated,
}

impl View for AnswerNewObject {
    type V = AnswerView;

    open spec fn view(&self) -> AnswerView {
        AnswerView::NewObject { script_states: self.script_states }
    }
}

impl View for AnswerReload {
    type V = AnswerView;

    open spec fn view(&self) -> AnswerView {
        AnswerView::Reload { save_path: self.save_path@, script_states: self.script_states }
    }
}

impl View for AnswerPrint {
    type V = AnswerView;

    open spec fn view(&self) -> AnswerView {
        AnswerView::Print { message: self.message@ }
    }
}

impl View for AnswerError {
    type V = AnswerView;

    open spec fn view(&self) -> AnswerView {
        AnswerView::Error {
            error: self.error@,
            guid: self.guid@,
            error_message_prefix: self.error_message_prefix@,
        }
    }
}

impl View for AnswerCustomMessage {
    type V = AnswerView;

    open spec fn view(&self) -> AnswerView {
        AnswerView::CustomMessage { custom_message: self.custom_message }
    }
}

impl View for AnswerReturn {
    type V = AnswerView;

    open spec fn view(&self) -> AnswerView {
        AnswerView::Return { return_id: self.return_id, return_value: self.return_value }
    }
}

impl View for AnswerGameSaved {
    type V = AnswerView;

    open spec fn view(&self) -> AnswerView {
        AnswerView::GameSaved
    }
}

impl View for AnswerObjectCreated {
    type V = AnswerView;

    open spec fn view(&self) -> AnswerView {
        AnswerView::ObjectCreated { guid: self.guid@ }
    }
}

impl View for Answer {
    type V = AnswerView;

    open spec fn view(&self) -> AnswerView {
        match *self {
            Answer::AnswerNewObject(answer) => answer@,
            Answer::AnswerReload(answer) => answer@,
            Answer::AnswerPrint(answer) => answer@,
            Answer::AnswerError(answer) => answer@,
            Answer::AnswerCustomMessage(answer) => answer@,
            Answer::AnswerReturn(answer) => answer@,
            Answer::AnswerGameSaved(answer) => answer@,
            Answer::AnswerObjectCreated(answer) => answer@,
        }
    }
}

impl AnswerView {
    /// The kind of the answer.
    pub open spec fn kind(self) -> AnswerKind {
        match self {
            AnswerView::NewObject { .. } => AnswerKind::NewObject,
            AnswerView::Reload { .. } => AnswerKind::Reload,
            AnswerView::Print { .. } => AnswerKind::Print,
            AnswerView::Error { .. } => AnswerKind::Error,
            AnswerView::CustomMessage { .. } => AnswerKind::CustomMessage,
            AnswerView::Return { .. } => AnswerKind::Return,
            AnswerView::GameSaved => AnswerKind::GameSaved,
            AnswerView::ObjectCreated { .. } => AnswerKind::ObjectCreated,
        }
    }
}

impl AnswerKind {
    /// The number that stands for this kind on the wire.
    pub open spec fn spec_message_id(self) -> u64 {
        match self {
            AnswerKind::NewObject => 0,
            AnswerKind::Reload => 1,
            AnswerKind::Print => 2,
            AnswerKind::Error => 3,
            AnswerKind::CustomMessage => 4,
            AnswerKind::Return => 5,
            AnswerKind::GameSaved => 6,
            AnswerKind::ObjectCreated => 7,
        }
    }

    /// The number that stands for this kind on the wire.
    #[verifier::when_used_as_spec(spec_message_id)]
    pub fn message_id(self) -> (id: u64)
        ensures
            id == self.spec_message_id(),
            id <= 7,
    {
        match self {
            AnswerKind::NewObject => 0,
            AnswerKind::Reload => 1,
            AnswerKind::Print => 2,
            AnswerKind::Error => 3,
            AnswerKind::CustomMessage => 4,
            AnswerKind::Return => 5,
            AnswerKind::GameSaved => 6,
            AnswerKind::ObjectCreated => 7,
        }
    }

    /// The kind that `id` stands for on the wire.
    pub open spec fn spec_from_message_id(id: u64) -> Option<AnswerKind> {
        if id == 0 {
            Some(AnswerKind::NewObject)
        } else if id == 1 {
            Some(AnswerKind::Reload)
        } else if id == 2 {
            Some(AnswerKind::Print)
        } else if id == 3 {
            Some(AnswerKind::Error)
        } else if id == 4 {
            Some(AnswerKind::CustomMessage)
        } else if id == 5 {
            Some(AnswerKind::Return)
        } else if id == 6 {
            Some(AnswerKind::GameSaved)
        } else if id == 7 {
            Some(AnswerKind::ObjectCreated)
        } else {
            None
        }
    }

    /// The kind that `id` stands for on the wire: one for each of 0 to 7 and
    /// none for any other number.
    #[verifier::when_used_as_spec(spec_from_message_id)]
    pub fn from_message_id(id: u64) -> (kind: Option<AnswerKind>)
        ensures
            kind == Self::spec_from_message_id(id),
            kind is Some <==> id <= 7,
            kind matches Some(k) ==> k.spec_message_id() == id,
    {
        if id == 0 {
            Some(AnswerKind::NewObject)
        } else if id == 1 {
            Some(AnswerKind::Reload)
        } else if id == 2 {
            Some(AnswerKind::Print)
        } else if id == 3 {
            Some(AnswerKind::Error)
        } else if id == 4 {
            Some(AnswerKind::CustomMessage)
        } else if id == 5 {
            Some(AnswerKind::Return)
        } else if id == 6 {
            Some(AnswerKind::GameSaved)
        } else if id == 7 {
            Some(AnswerKind::ObjectCreated)
        } else {
            None
        }
    }
}

impl Answer {
    /// The kind of this answer.
    pub fn kind(&self) -> (kind: AnswerKind)
        ensures
            kind == self@.kind(),
    {
        match self {
            Answer::AnswerNewObject(_) => AnswerKind::NewObject,
            Answer::AnswerReload(_) => AnswerKind::Reload,
            Answer::AnswerPrint(_) => AnswerKind::Print,
            Answer::AnswerError(_) => AnswerKind::Error,
            Answer::AnswerCustomMessage(_) => AnswerKind::CustomMessage,
            Answer::AnswerReturn(_) => AnswerKind::Return,
            Answer::AnswerGameSaved(_) => AnswerKind::GameSaved,
            Answer::AnswerObjectCreated(_) => AnswerKind::ObjectCreated,
        }
    }

    /// The number that stands for this answer's kind on the wire.
    pub fn message_id(&self) -> (id: u64)
        ensures
            id == self@.kind().spec_message_id(),
            id <= 7,
    {
        self.kind().message_id()
    }
}

impl TryFrom<Answer> for AnswerNewObject {
    type Error = Error;

    fn try_from(answer: Answer) -> (narrowed: Result<Self, Error>) {
        match answer {
            Answer::AnswerNewObject(answer) => Ok(answer),
            other => Err(Error::AnswerError(other)),
        }
    }
}

impl TryFromSpecImpl<Answer> for AnswerNewObject {
    open spec fn obeys_try_from_spec() -> bool {
        true
    }

    open spec fn try_from_spec(answer: Answer) -> Result<Self, Error> {
        match answer {
            Answer::AnswerNewObject(answer) => Ok(answer),
            other => Err(Error::AnswerError(other)),
        }
    }
}

impl TryFrom<Answer> for AnswerReload {
    type Error = Error;

    fn try_from(answer: Answer) -> (narrowed: Result<Self, Error>) {
        match answer {
            Answer::AnswerReload(answer) => Ok(answer),
            other => Err(Error::AnswerError(other)),
        }
    }
}

impl TryFromSpecImpl<Answer> for AnswerReload {
    open spec fn obeys_try_from_spec() -> bool {
        true
    }

    open spec fn try_from_spec(answer: Answer) -> Result<Self, Error> {
        match answer {
            Answer::AnswerReload(answer) => Ok(answer),
            other => Err(Error::AnswerError(other)),
        }
    }
}

impl TryFrom<Answer> for AnswerPrint {
    type Error = Error;

    fn try_from(answer: Answer) -> (narrowed: Result<Self, Error>) {
        match answer {
            Answer::AnswerPrint(answer) => Ok(answer),
            other => Err(Error::AnswerError(other)),
        }
    }
}

impl TryFromSpecImpl<Answer> for AnswerPrint {
    open spec fn obeys_try_from_spec() -> bool {
        true
    }

    open spec fn try_from_spec(answer: Answer) -> Result<Self, Error> {
        match answer {
            Answer::AnswerPrint(answer) => Ok(answer),
            other => Err(Error::AnswerError(other)),
        }
    }
}

impl TryFrom<Answer> for AnswerError {
    type Error = Error;

    fn try_from(answer: Answer) -> (narrowed: Result<Self, Error>) {
        match answer {
            Answer::AnswerError(answer) => Ok(answer),
            other => Err(Error::AnswerError(other)),
        }
    }
}

impl TryFromSpecImpl<Answer> for AnswerError {
    open spec fn obeys_try_from_spec() -> bool {
        true
    }

    open spec fn try_from_spec(answer: Answer) -> Result<Self, Error> {
        match answer {
            Answer::AnswerError(answer) => Ok(answer),
            other => Err(Error::AnswerError(other)),
        }
    }
}

impl TryFrom<Answer> for AnswerCustomMessage {
    type Error = Error;

    fn try_from(answer: Answer) -> (narrowed: Result<Self, Error>) {
        match answer {
            Answer::AnswerCustomMessage(answer) => Ok(answer),
            other => Err(Error::AnswerError(other)),
        }
    }
}

impl TryFromSpecImpl<Answer> for AnswerCustomMessage {
    open spec fn obeys_try_from_spec() -> bool {
        true
    }

    open spec fn try_from_spec(answer: Answer) -> Result<Self, Error> {
        match answer {
            Answer::AnswerCustomMessage(answer) => Ok(answer),
            other => Err(Error::AnswerError(other)),
        }
    }
}

impl TryFrom<Answer> for AnswerReturn {
    type Error = Error;

    fn try_from(answer: Answer) -> (narrowed: Result<Self, Error>) {
        match answer {
            Answer::AnswerReturn(answer) => Ok(answer),
            other => Err(Error::AnswerError(other)),
        }
    }
}

impl TryFromSpecImpl<Answer> for AnswerReturn {
    open spec fn obeys_try_from_spec() -> bool {
        true
    }

    open spec fn try_from_spec(answer: Answer) -> Result<Self, Error> {
        match answer {
            Answer::AnswerReturn(answer) => Ok(answer),
            other => Err(Error::AnswerError(other)),
        }
    }
}

impl TryFrom<Answer> for AnswerGameSaved {
    type Error = Error;

    fn try_from(answer: Answer) -> (narrowed: Result<Self, Error>) {
        match answer {
            Answer::AnswerGameSaved(answer) => Ok(answer),
            other => Err(Error::AnswerError(other)),
        }
    }
}

impl TryFromSpecImpl<Answer> for AnswerGameSaved {
    open spec fn obeys_try_from_spec() -> bool {
        true
    }

    open spec fn try_from_spec(answer: Answer) -> Result<Self, Error> {
        match answer {
            Answer::AnswerGameSaved(answer) => Ok(answer),
            other => Err(Error::AnswerError(other)),
        }
    }
}

impl TryFrom<Answer> for AnswerObjectCreated {
    type Error = Error;

    fn try_from(answer: Answer) -> (narrowed: Result<Self, Error>) {
        match answer {
            Answer::AnswerObjectCreated(answer) => Ok(answer),
            other => Err(Error::AnswerError(other)),
        }
    }
}

impl TryFromSpecImpl<Answer> for AnswerObjectCreated {
    open spec fn obeys_try_from_spec() -> bool {
        true
    }

    open spec fn try_from_spec(answer: Answer) -> Result<Self, Error> {
        match answer {
            Answer::AnswerObjectCreated(answer) => Ok(answer),
            other => Err(Error::AnswerError(other)),
        }
    }
}

} // verus!
