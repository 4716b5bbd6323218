use ttsst::answers::{Answer, AnswerGameSaved, AnswerKind, AnswerPrint};
use ttsst::error::{DecodeError, Error, Field};
use ttsst::messages::{MessageExecute, MessageGetScripts};

#[test]
fn every_field_has_its_wire_name() {
    assert_eq!(Field::MessageId.name(), "messageID");
    assert_eq!(Field::ScriptStates.name(), "scriptStates");
    assert_eq!(Field::SavePath.name(), "savePath");
    assert_eq!(Field::Message.name(), "message");
    assert_eq!(Field::Error.name(), "error");
    assert_eq!(Field::Guid.name(), "guid");
    assert_eq!(Field::ErrorMessagePrefix.name(), "errorMessagePrefix");
    assert_eq!(Field::CustomMessage.name(), "customMessage");
    assert_eq!(Field::ReturnId.name(), "returnID");
    assert_eq!(Field::ReturnValue.name(), "returnValue");
}

#[test]
fn a_decode_error_is_described() {
    assert_eq!(DecodeError::Syntax.describe(), "the game sent a frame that is not JSON");
    assert_eq!(
        DecodeError::Field(Field::SavePath).describe(),
        "the game sent a frame without a valid savePath"
    );
    assert_eq!(DecodeError::UnknownMessageId(8).describe(), "unsupported id 8");
    assert_eq!(
        DecodeError::UnknownMessageId(u64::MAX).describe(),
        "unsupported id 18446744073709551615"
    );
}

#[test]
fn an_error_is_described() {
    assert_eq!(Error::Connect.describe(), "could not connect to the game: is a save loaded?");
    assert_eq!(
        Error::Decode(DecodeError::Field(Field::MessageId)).describe(),
        "the game sent a frame without a valid messageID"
    );
    assert_eq!(
        Error::MessageError(MessageGetScripts::new().as_message()).describe(),
        "message was of type MessageGetScripts"
    );
    assert_eq!(
        Error::MessageError(MessageExecute::new(String::new()).as_message()).describe(),
        "message was of type MessageExecute"
    );
    assert_eq!(
        Error::AnswerError(Answer::AnswerGameSaved(AnswerGameSaved {})).describe(),
        "answer was of type AnswerGameSaved"
    );
    assert_eq!(
        Error::AnswerError(Answer::AnswerPrint(AnswerPrint { message: String::from("x") }))
            .describe(),
        "answer was of type AnswerPrint"
    );
}

#[test]
fn kinds_and_messages_are_labelled_by_their_types() {
    assert_eq!(AnswerKind::NewObject.label(), "AnswerNewObject");
    assert_eq!(AnswerKind::Reload.label(), "AnswerReload");
    assert_eq!(AnswerKind::Error.label(), "AnswerError");
    assert_eq!(AnswerKind::CustomMessage.label(), "AnswerCustomMessage");
    assert_eq!(AnswerKind::Return.label(), "AnswerReturn");
    assert_eq!(AnswerKind::ObjectCreated.label(), "AnswerObjectCreated");
    assert_eq!(MessageGetScripts::new().as_message().label(), "MessageGetScripts");
}
