use serde_json::Value;
use ttsst::answers::{
    Answer, AnswerError, AnswerGameSaved, AnswerKind, AnswerNewObject, AnswerPrint, AnswerReload,
    AnswerReturn,
};
use ttsst::error::{DecodeError, Error};
use ttsst::exchange::{Request, Step, Waiter};
use ttsst::messages::{
    MessageCustomMessage, MessageExecute, MessageGetScripts, MessageReload,
};
use ttsst::waiter::{Awaited, Inbox};

fn printed(line: &str) -> String {
    format!("{{\"messageID\":2,\"message\":\"{}\"}}", line)
}

fn returned(value: &str) -> String {
    format!("{{\"messageID\":5,\"returnID\":5,\"returnValue\":\"{}\"}}", value)
}

fn script_error() -> String {
    String::from("{\"messageID\":3,\"error\":\"e\",\"guid\":\"-1\",\"errorMessagePrefix\":\"p\"}")
}

fn inbox_of(frames: &[String]) -> Inbox {
    let mut inbox = Inbox::new();
    for frame in frames {
        inbox.push(frame.clone());
    }
    inbox
}

fn answer_of(step: Step) -> Result<Option<Answer>, Error> {
    match step {
        Step::Finish(outcome) => outcome,
        Step::Receive(_) => panic!("the exchange goes on"),
    }
}

fn waiter_of(step: Step) -> Waiter {
    match step {
        Step::Receive(waiter) => waiter,
        Step::Finish(_) => panic!("the exchange is over"),
    }
}

#[test]
fn an_inbox_hands_frames_out_in_the_order_of_arrival() {
    let mut inbox = Inbox::new();
    assert!(inbox.is_empty());
    assert_eq!(inbox.len(), 0);
    assert_eq!(inbox.read_string(), None);
    inbox.push(printed("a"));
    inbox.push(String::from("not json"));
    inbox.push(String::from("{\"messageID\":6}"));
    assert_eq!(inbox.len(), 3);
    assert!(!inbox.is_empty());
    assert_eq!(inbox.read_string(), Some(printed("a")));
    assert_eq!(inbox.read(), Some(Err(DecodeError::Syntax)));
    assert_eq!(inbox.read(), Some(Ok(Answer::AnswerGameSaved(AnswerGameSaved {}))));
    assert_eq!(inbox.read(), None);
    assert!(inbox.is_empty());
}

#[test]
fn waiting_drops_what_arrives_before_the_answer() {
    let mut inbox = inbox_of(&[printed("a"), printed("b"), script_error(), returned("2")]);
    assert_eq!(
        inbox.wait::<AnswerReturn>(),
        Some(Ok(AnswerReturn { return_id: 5, return_value: Value::from(2u64) }))
    );
    assert!(inbox.is_empty());
    assert_eq!(inbox.wait::<AnswerPrint>(), None);
    assert_eq!(inbox.wait::<AnswerError>(), None);
    assert_eq!(inbox.read_string(), None);
}

#[test]
fn waiting_leaves_what_arrives_behind_the_answer() {
    let mut inbox = inbox_of(&[printed("a"), returned("1"), printed("b"), script_error()]);
    assert_eq!(
        inbox.wait_for(AnswerKind::Return),
        Some(Ok(Answer::AnswerReturn(AnswerReturn {
            return_id: 5,
            return_value: Value::from(1u64),
        })))
    );
    assert_eq!(inbox.len(), 2);
    assert_eq!(inbox.read_string(), Some(printed("b")));
    assert_eq!(inbox.read_string(), Some(script_error()));
}

#[test]
fn answers_of_one_kind_come_out_in_the_order_of_arrival() {
    let mut inbox = inbox_of(&[returned("A"), returned("B")]);
    assert_eq!(
        inbox.wait::<AnswerReturn>(),
        Some(Ok(AnswerReturn { return_id: 5, return_value: Value::from("A") }))
    );
    assert_eq!(
        inbox.wait::<AnswerReturn>(),
        Some(Ok(AnswerReturn { return_id: 5, return_value: Value::from("B") }))
    );
    assert_eq!(inbox.wait::<AnswerReturn>(), None);
}

#[test]
fn answers_keep_their_order_across_other_kinds() {
    let mut inbox =
        inbox_of(&[printed("x"), returned("A"), printed("y"), printed("z"), returned("B")]);
    assert_eq!(
        inbox.wait::<AnswerReturn>(),
        Some(Ok(AnswerReturn { return_id: 5, return_value: Value::from("A") }))
    );
    assert_eq!(inbox.len(), 3);
    assert_eq!(
        inbox.wait::<AnswerReturn>(),
        Some(Ok(AnswerReturn { return_id: 5, return_value: Value::from("B") }))
    );
    assert!(inbox.is_empty());
}

#[test]
fn waiting_without_the_answer_drops_everything() {
    let mut inbox = inbox_of(&[printed("a"), script_error()]);
    assert_eq!(inbox.wait::<AnswerReturn>(), None);
    assert!(inbox.is_empty());
    let mut empty = Inbox::new();
    assert_eq!(empty.wait_for(AnswerKind::Print), None);
}

#[test]
fn waiting_stops_at_a_frame_that_is_no_answer() {
    let mut inbox =
        inbox_of(&[printed("a"), String::from("{\"messageID\":9}"), returned("1"), printed("b")]);
    assert_eq!(inbox.wait::<AnswerReturn>(), Some(Err(DecodeError::UnknownMessageId(9))));
    assert_eq!(inbox.len(), 2);
    assert_eq!(
        inbox.wait::<AnswerReturn>(),
        Some(Ok(AnswerReturn { return_id: 5, return_value: Value::from(1u64) }))
    );
    assert_eq!(inbox.read_string(), Some(printed("b")));
}

#[test]
fn every_answer_type_waits_for_its_own_kind() {
    assert_eq!(<AnswerNewObject as Awaited>::kind(), AnswerKind::NewObject);
    assert_eq!(<AnswerReload as Awaited>::kind(), AnswerKind::Reload);
    assert_eq!(<AnswerPrint as Awaited>::kind(), AnswerKind::Print);
    assert_eq!(<AnswerError as Awaited>::kind(), AnswerKind::Error);
    assert_eq!(<AnswerReturn as Awaited>::kind(), AnswerKind::Return);
    assert_eq!(<AnswerGameSaved as Awaited>::kind(), AnswerKind::GameSaved);
    let saved = Answer::AnswerGameSaved(AnswerGameSaved {});
    assert_eq!(<AnswerGameSaved as Awaited>::narrow(saved.clone()), Some(AnswerGameSaved {}));
    assert_eq!(<AnswerPrint as Awaited>::narrow(saved), None);
}

#[test]
fn every_message_knows_the_kind_of_its_reply() {
    assert_eq!(MessageGetScripts::new().as_message().reply(), Some(AnswerKind::Reload));
    assert_eq!(MessageReload::new(Value::Null).as_message().reply(), Some(AnswerKind::Reload));
    assert_eq!(MessageCustomMessage::new(Value::Null).as_message().reply(), None);
    assert_eq!(MessageExecute::new(String::new()).as_message().reply(), Some(AnswerKind::Return));
}

#[test]
fn a_request_by_command_is_the_request_for_its_message() {
    assert_eq!(Request::get_scripts(), Request::new(&MessageGetScripts::new().as_message()));
    let states: Value = serde_json::from_str("[{\"guid\":\"-1\"}]").unwrap();
    assert_eq!(
        Request::reload(states.clone()),
        Request::new(&MessageReload::new(states.clone()).as_message())
    );
    assert_eq!(
        Request::custom_message(states.clone()),
        Request::new(&MessageCustomMessage::new(states).as_message())
    );
    assert_eq!(
        Request::execute(String::from("return 1")),
        Request::new(&MessageExecute::new(String::from("return 1")).as_message())
    );
    assert_eq!(
        Request::execute_on_object(String::from("return 1"), String::from("db3f06")),
        Request {
            frame: String::from(
                "{\"messageID\":3,\"returnID\":5,\"guid\":\"db3f06\",\"script\":\"return 1\"}"
            ),
            reply: Some(AnswerKind::Return),
        }
    );
}

#[test]
fn test_get_scripts() {
    let request = Request::get_scripts();
    assert_eq!(request.frame, "{\"messageID\":0}");
    assert_eq!(request.reply, Some(AnswerKind::Reload));
    let waiter = waiter_of(request.delivered());
    assert_eq!(waiter.wanted, AnswerKind::Reload);
    let waiter = waiter_of(waiter.offer(&printed("loading")));
    let step = waiter.offer("{\"messageID\":1,\"savePath\":\"save.json\",\"scriptStates\":[]}");
    assert_eq!(
        answer_of(step),
        Ok(Some(Answer::AnswerReload(AnswerReload {
            save_path: String::from("save.json"),
            script_states: Value::Array(Vec::new()),
        })))
    );
}

#[test]
fn test_reload() {
    let request = Request::reload(Value::Array(Vec::new()));
    assert_eq!(request.frame, "{\"messageID\":1,\"scriptStates\":[]}");
    assert_eq!(request.reply, Some(AnswerKind::Reload));
    let waiter = waiter_of(request.delivered());
    let step = waiter.offer("{\"messageID\":1,\"savePath\":\"save.json\",\"scriptStates\":[]}");
    assert_eq!(
        answer_of(step),
        Ok(Some(Answer::AnswerReload(AnswerReload {
            save_path: String::from("save.json"),
            script_states: Value::Array(Vec::new()),
        })))
    );
}

#[test]
fn test_custom_message() {
    let message: Value = serde_json::from_str("{\"foo\":\"Foo\"}").unwrap();
    let request = Request::custom_message(message);
    assert_eq!(request.frame, "{\"messageID\":2,\"customMessage\":{\"foo\":\"Foo\"}}");
    assert_eq!(request.reply, None);
    assert_eq!(answer_of(request.delivered()), Ok(None));
}

#[test]
fn test_execute() {
    let script = String::from("return JSON.encode({foo = 'Foo'})");
    let request = Request::execute(script);
    assert_eq!(
        request.frame,
        "{\"messageID\":3,\"returnID\":5,\"guid\":\"-1\",\"script\":\"return JSON.encode({foo = 'Foo'})\"}"
    );
    assert_eq!(request.reply, Some(AnswerKind::Return));
    let waiter = waiter_of(request.delivered());
    let step = waiter
        .offer("{\"messageID\":5,\"returnID\":5,\"returnValue\":\"{\\\"foo\\\":\\\"Foo\\\"}\"}");
    let expected: Value = serde_json::from_str("{\"foo\":\"Foo\"}").unwrap();
    assert_eq!(
        answer_of(step),
        Ok(Some(Answer::AnswerReturn(AnswerReturn { return_id: 5, return_value: expected })))
    );
}

#[test]
fn test_new_object() {
    let frame =
        "{\"messageID\":0,\"scriptStates\":[{\"name\":\"Chess Pawn\",\"guid\":\"db3f06\",\"script\":\"\"}]}";
    let mut inbox = inbox_of(&[printed("a"), String::from(frame)]);
    let states: Value =
        serde_json::from_str("[{\"name\":\"Chess Pawn\",\"guid\":\"db3f06\",\"script\":\"\"}]")
            .unwrap();
    assert_eq!(inbox.wait::<AnswerNewObject>(), Some(Ok(AnswerNewObject { script_states: states })));
}

#[test]
fn test_read() {
    let mut inbox = inbox_of(&[printed("a"), String::from("{\"messageID\":6}"), returned("3")]);
    assert_eq!(
        inbox.read(),
        Some(Ok(Answer::AnswerPrint(AnswerPrint { message: String::from("a") })))
    );
    assert_eq!(inbox.read(), Some(Ok(Answer::AnswerGameSaved(AnswerGameSaved {}))));
    assert_eq!(
        inbox.read(),
        Some(Ok(Answer::AnswerReturn(AnswerReturn {
            return_id: 5,
            return_value: Value::from(3u64),
        })))
    );
    assert_eq!(inbox.read(), None);
}

#[test]
fn execute_returns_the_number_that_the_script_returned() {
    let request = Request::new(&MessageExecute::new(String::from("return 1+1")).as_message());
    assert_eq!(
        request.frame,
        "{\"messageID\":3,\"returnID\":5,\"guid\":\"-1\",\"script\":\"return 1+1\"}"
    );
    let waiter = waiter_of(request.delivered());
    let outcome = answer_of(waiter.offer("{\"messageID\":5,\"returnID\":5,\"returnValue\":\"2\"}"));
    match outcome {
        Ok(Some(Answer::AnswerReturn(answer))) => {
            assert_eq!(answer.return_id, 5);
            assert_eq!(answer.return_value, Value::from(2u64));
            assert_ne!(answer.return_value, Value::from("2"));
        }
        other => panic!("no return: {:?}", other),
    }
}

#[test]
fn a_command_that_cannot_be_sent_ends_with_connect() {
    let request = Request::new(&MessageGetScripts::new().as_message());
    assert_eq!(answer_of(request.refused()), Err(Error::Connect));
    let request = Request::new(&MessageCustomMessage::new(Value::Null).as_message());
    assert_eq!(answer_of(request.refused()), Err(Error::Connect));
}

#[test]
fn an_exchange_ends_at_a_frame_that_is_no_answer() {
    let waiter = Waiter::new(AnswerKind::Return);
    assert_eq!(
        answer_of(waiter.offer("{\"messageID\":12}")),
        Err(Error::Decode(DecodeError::UnknownMessageId(12)))
    );
    let waiter = Waiter::new(AnswerKind::Return);
    assert_eq!(answer_of(waiter.offer("{")), Err(Error::Decode(DecodeError::Syntax)));
}

#[test]
fn a_waiter_drains_an_inbox_up_to_its_answer() {
    let mut inbox = inbox_of(&[printed("a"), script_error(), returned("2"), printed("b")]);
    let step = Waiter::new(AnswerKind::Return).drain(&mut inbox);
    assert_eq!(
        answer_of(step),
        Ok(Some(Answer::AnswerReturn(AnswerReturn {
            return_id: 5,
            return_value: Value::from(2u64),
        })))
    );
    assert_eq!(inbox.len(), 1);
    let waiter = waiter_of(Waiter::new(AnswerKind::Return).drain(&mut inbox));
    assert_eq!(waiter.wanted, AnswerKind::Return);
    assert!(inbox.is_empty());
    inbox.push(String::from("nonsense"));
    assert_eq!(answer_of(waiter.drain(&mut inbox)), Err(Error::Decode(DecodeError::Syntax)));
}
