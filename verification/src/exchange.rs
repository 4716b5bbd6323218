//! The exchange that a command makes with the game: one frame goes out, and
//! for most commands answers are read until the one that the command produces
//! comes in.
//!
//! Sending and receiving are the work of the program around this crate. The
//! types here decide what it has to do next: a [`Request`] holds the frame to
//! send, what became of the send turns it into a [`Step`], and every frame
//! that was received turns a [`Waiter`] into the next `Step`.

use crate::answers::{Answer, AnswerKind, AnswerView};
use crate::error::{Error, ErrorView};
use crate::messages::{
    global_guid, wire_text, Message, MessageCustomMessage, MessageExecute, MessageGetScripts,
    MessageReload, MessageView, RETURN_ID,
};
use crate::waiter::{dropped, lemma_dropped_then_stops, stops_at, Inbox};
use serde_json::Value;
use vstd::prelude::*;

verus! {

/// The kind of answer that the game sends in reply to a message, or `None`
/// for a message that it does not reply to.
pub open spec fn reply_of(message: MessageView) -> Option<AnswerKind> {
    match message {
        MessageView::GetScripts => Some(AnswerKind::Reload),
        MessageView::Reload { .. } => Some(AnswerKind::Reload),
        MessageView::CustomMessage { .. } => None,
        MessageView::Execute { .. } => Some(AnswerKind::Return),
    }
}

impl Message {
    /// The kind of answer that the game sends in reply to this message.
    pub fn reply(&self) -> (kind: Option<AnswerKind>)
        ensures
            kind == reply_of(self@),
    {
        match self {
            Message::MessageGetScripts(_) => Some(AnswerKind::Reload),
            Message::MessageReload(_) => Some(AnswerKind::Reload),
            Message::MessageCustomMessage(_) => None,
            Message::MessageExecute(_) => Some(AnswerKind::Return),
        }
    }
}

/// A command that is about to be sent.
#[derive(Debug, Clone, PartialEq, Eq)]
pub struct Request {
    /// The frame to send.
    pub frame: String,
    /// The kind of answer to wait for once the frame is delivered.
    pub reply: Option<AnswerKind>,
}

/// A command that was delivered and whose answer has not come in yet.
#[derive(Debug, Clone, PartialEq, Eq)]
pub struct Waiter {
    /// The kind of answer that ends the wait.
    pub wanted: AnswerKind,
}

/// What the program around this crate has to do next.
#[derive(Debug, PartialEq, Eq)]
pub enum Step {
    /// Receive one more frame and offer it to the waiter.
    Receive(Waiter),
    /// Hand the outcome to the caller: the answer to the command, `None` for
    /// a command without one, or the error that ended the exchange.
    Finish(Result<Option<Answer>, Error>),
}

/// What a [`Step`] holds, with answers and errors by their views.
pub enum StepView {
    Receive(AnswerKind),
    Finish(Result<Option<AnswerView>, ErrorView>),
}

impl View for Step {
    type V = StepView;

    open spec fn view(&self) -> StepView {
        match *self {
            Step::Receive(waiter) => StepView::Receive(waiter.wanted),
            Step::Finish(Ok(Some(answer))) => StepView::Finish(Ok(Some(answer@))),
            Step::Finish(Ok(None)) => StepView::Finish(Ok(None)),
            Step::Finish(Err(error)) => StepView::Finish(Err(error@)),
        }
    }
}

/// The step after a frame was delivered to the game: a command without a
/// reply is done, and any other command waits for its reply.
pub open spec fn after_delivery(reply: Option<AnswerKind>) -> StepView {
    match reply {
        Some(wanted) => StepView::Receive(wanted),
        None => StepView::Finish(Ok(None)),
    }
}

/// The step after a frame could not be delivered: the exchange ends with
/// `Connect`, and nothing is received.
pub open spec fn after_refusal() -> StepView {
    StepView::Finish(Err(ErrorView::Connect))
}

/// The step after a frame with the given text was received while waiting for
/// `wanted`: a frame that is no answer ends the exchange with its error, an
/// answer of the kind `wanted` ends it with that answer, and an answer of
/// another kind is dropped and the wait goes on.
pub open spec fn after_frame(wanted: AnswerKind, text: Seq<char>) -> StepView {
    match AnswerView::of_text(text) {
        Err(fault) => StepView::Finish(Err(ErrorView::Decode(fault))),
        Ok(answer) => if answer.kind() == wanted {
            StepView::Finish(Ok(Some(answer)))
        } else {
            StepView::Receive(wanted)
        },
    }
}

/// A wait ends only with an answer of the kind waited for or with an error,
/// and it goes on exactly at the frames that a waiter drops.
pub proof fn lemma_wait_ends_with_wanted(wanted: AnswerKind, text: Seq<char>)
    ensures
        after_frame(wanted, text) matches StepView::Finish(Ok(Some(answer))) ==> answer.kind()
            == wanted,
        after_frame(wanted, text) != StepView::Finish(Ok(None)),
        after_frame(wanted, text) is Receive <==> !stops_at(wanted, text),
        after_frame(wanted, text) is Receive ==> after_frame(wanted, text) == StepView::Receive(
            wanted,
        ),
{
}

impl Request {
    /// The request that sends `message`.
    pub fn new(message: &Message) -> (request: Self)
        ensures
            request.frame@ == wire_text(message@),
            request.reply == reply_of(message@),
    {
        Request { frame: message.encode(), reply: message.reply() }
    }

    /// The request that asks for the state of every object. The game replies
    /// with an `AnswerReload`.
    pub fn get_scripts() -> (request: Self)
        ensures
            request.frame@ == wire_text(MessageView::GetScripts),
            request.reply == Some(AnswerKind::Reload),
    {
        Request::new(&MessageGetScripts::new().as_message())
    }

    /// The request that updates the scripts of the listed objects and reloads
    /// the save. The game replies with an `AnswerReload`.
    pub fn reload(script_states: Value) -> (request: Self)
        ensures
            request.frame@ == wire_text(MessageView::Reload { script_states }),
            request.reply == Some(AnswerKind::Reload),
    {
        Request::new(&MessageReload::new(script_states).as_message())
    }

    /// The request that hands a custom value to the loaded game. The game
    /// does not reply.
    pub fn custom_message(message: Value) -> (request: Self)
        ensures
            request.frame@ == wire_text(MessageView::CustomMessage { custom_message: message }),
            request.reply is None,
    {
        Request::new(&MessageCustomMessage::new(message).as_message())
    }

    /// The request that runs a script globally. The game replies with an
    /// `AnswerReturn`.
    pub fn execute(script: String) -> (request: Self)
        ensures
            request.frame@ == wire_text(
                MessageView::Execute {
                    return_id: RETURN_ID,
                    guid: global_guid(),
                    script: script@,
                },
            ),
            request.reply == Some(AnswerKind::Return),
    {
        Request::new(&MessageExecute::new(script).as_message())
    }

    /// The request that runs a script on an object. The game replies with an
    /// `AnswerReturn`.
    pub fn execute_on_object(script: String, guid: String) -> (request: Self)
        ensures
            request.frame@ == wire_text(
                MessageView::Execute { return_id: RETURN_ID, guid: guid@, script: script@ },
            ),
            request.reply == Some(AnswerKind::Return),
    {
        Request::new(&MessageExecute::new_object(script, guid).as_message())
    }

    /// The step after the frame was written to the game in full.
    pub fn delivered(self) -> (step: Step)
        ensures
            step@ == after_delivery(self.reply),
    {
        match self.reply {
            Some(wanted) => Step::Receive(Waiter { wanted }),
            None => Step::Finish(Ok(None)),
        }
    }

    /// The step after the game could not be reached.
    pub fn refused(self) -> (step: Step)
        ensures
            step@ == after_refusal(),
    {
        Step::Finish(Err(Error::Connect))
    }
}

impl Waiter {
    /// A waiter for answers of the kind `wanted`.
    pub fn new(wanted: AnswerKind) -> (waiter: Self)
        ensures
            waiter.wanted == wanted,
    {
        Waiter { wanted }
    }

    /// The step after `frame` was received.
    pub fn offer(self, frame: &str) -> (step: Step)
        ensures
            step@ == after_frame(self.wanted, frame@),
    {
        match Answer::decode(frame) {
            Err(fault) => Step::Finish(Err(Error::Decode(fault))),
            Ok(answer) => if answer.kind() == self.wanted {
                Step::Finish(Ok(Some(answer)))
            } else {
                Step::Receive(self)
            },
        }
    }
}

impl Waiter {
    /// Offers the frames of `inbox`, oldest first, until one ends the exchange
    /// or none is left. The frames that were offered are gone from the inbox.
    /// Where none ended the exchange, the step is to receive more.
    pub fn drain(self, inbox: &mut Inbox) -> (step: Step)
        ensures
            ({
                let at = dropped(self.wanted, old(inbox)@) as int;
                if at < old(inbox)@.len() {
                    &&& step@ == after_frame(self.wanted, old(inbox)@[at])
                    &&& final(inbox)@ == old(inbox)@.skip(at + 1)
                } else {
                    &&& step@ == StepView::Receive(self.wanted)
                    &&& final(inbox)@ == Seq::<Seq<char>>::empty()
                }
            }),
    {
        proof {
            lemma_dropped_then_stops(self.wanted, inbox@);
        }
        match inbox.wait_for(self.wanted) {
            Some(Ok(answer)) => Step::Finish(Ok(Some(answer))),
            Some(Err(fault)) => Step::Finish(Err(Error::Decode(fault))),
            None => Step::Receive(self),
        }
    }
}

} // verus!
