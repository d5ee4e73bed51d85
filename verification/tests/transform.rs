use chat_ingest::{chat_question, get_question, Question, RawEvent, Timestamp};

fn chat(id: &str, sender: &str, text: &str, millis: i64) -> RawEvent {
    RawEvent::ChatMessage {
        id: id.to_string(),
        sender: sender.to_string(),
        text: text.to_string(),
        timestamp: Timestamp::from_millis(millis).unwrap(),
    }
}

#[test]
fn chat_message_becomes_one_question() {
    let question = get_question(chat("m1", "alice", "hi", 1_704_067_200_000));
    assert_eq!(
        question,
        Some(Question {
            id: "m1".to_string(),
            username: "alice".to_string(),
            message: "hi".to_string(),
            timestamp: "2024-01-01T00:00:00Z".to_string(),
        })
    );
}

#[test]
fn fields_are_copied_verbatim() {
    let id = "e9d998c3-36f1-430f-89ec-6b887c28af36";
    let sender = "jun1orrrr";
    let text = "  <b>dank</b> cam \u{1F600}\t'; DROP TABLE comments; -- ";
    let question = get_question(chat(id, sender, text, 1_594_545_155_039)).unwrap();
    assert_eq!(question.id, id);
    assert_eq!(question.username, sender);
    assert_eq!(question.message, text);
    assert_eq!(question.timestamp, "2020-07-12T09:12:35.039Z");
}

#[test]
fn empty_fields_are_kept_empty() {
    let question = get_question(chat("", "", "", 0)).unwrap();
    assert_eq!(question.id, "");
    assert_eq!(question.username, "");
    assert_eq!(question.message, "");
    assert_eq!(question.timestamp, "1970-01-01T00:00:00Z");
}

#[test]
fn every_other_kind_is_filtered_out() {
    let others = vec![
        RawEvent::ClearChat,
        RawEvent::ClearMsg,
        RawEvent::GlobalUserState,
        RawEvent::Join,
        RawEvent::Notice,
        RawEvent::Part,
        RawEvent::Ping,
        RawEvent::Pong,
        RawEvent::Reconnect,
        RawEvent::RoomState,
        RawEvent::UserNotice,
        RawEvent::UserState,
        RawEvent::Whisper,
        RawEvent::Other,
    ];
    for event in others {
        assert_eq!(get_question(event.clone()), None, "{:?}", event);
    }
}

#[test]
fn same_event_gives_the_same_question() {
    let first = get_question(chat("m7", "carol", "again", 1_594_555_275_886));
    let second = get_question(chat("m7", "carol", "again", 1_594_555_275_886));
    assert!(first.is_some());
    assert_eq!(first, second);
}

#[test]
fn chat_question_assembles_the_record() {
    let question = chat_question(
        "m1".to_string(),
        "alice".to_string(),
        "hi".to_string(),
        "2024-01-01T00:00:00Z".to_string(),
    );
    assert_eq!(
        question,
        Question {
            id: "m1".to_string(),
            username: "alice".to_string(),
            message: "hi".to_string(),
            timestamp: "2024-01-01T00:00:00Z".to_string(),
        }
    );
}
