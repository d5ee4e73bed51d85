//! The domain record and the transformer that produces it.

use crate::event::{RawEvent, RawEventView};
use crate::timestamp::canonical_text;
use vstd::prelude::*;

verus! {

/// The storage-ready form of one chat message. A question has no identity
/// beyond its `id`, which is also the key it is stored under.
#[derive(Clone, Debug, PartialEq, Eq)]
pub struct Question {
    /// Identifier of the upstream message.
    pub id: String,
    /// Login of the sender.
    pub username: String,
    /// The message text, neither validated nor sanitised.
    pub message: String,
    /// The event time in its canonical text.
    pub timestamp: String,
}

/// The mathematical value of a [`Question`].
pub struct QuestionView {
    pub id: Seq<char>,
    pub username: Seq<char>,
    pub message: Seq<char>,
    pub timestamp: Seq<char>,
}

impl View for Question {
    type V = QuestionView;

    open spec fn view(&self) -> QuestionView {
        QuestionView {
            id: self.id@,
            username: self.username@,
            message: self.message@,
            timestamp: self.timestamp@,
        }
    }
}

/// The view of an optional question.
pub open spec fn question_view(question: Option<Question>) -> Option<QuestionView> {
    match question {
        Some(q) => Some(q@),
        None => None,
    }
}

/// The record that a chat message with these fields maps to, given the
/// canonical text of its timestamp: identifier, sender and text are copied
/// unchanged.
pub open spec fn chat_record(
    id: Seq<char>,
    sender: Seq<char>,
    text: Seq<char>,
    timestamp: Seq<char>,
) -> QuestionView {
    QuestionView { id, username: sender, message: text, timestamp }
}

/// The record that an event maps to: one for a chat message, none for any
/// other kind.
pub open spec fn record_of(event: RawEventView) -> Option<QuestionView> {
    match event {
        RawEventView::ChatMessage { id, sender, text, timestamp } => Some(
            chat_record(id, sender, text, canonical_text(timestamp)),
        ),
        _ => None,
    }
}

/// Assembles the record of a chat message from its fields and the canonical
/// text of its timestamp.
pub fn chat_question(
    id: String,
    sender: String,
    text: String,
    timestamp: String,
) -> (question: Question)
    ensures
        question@ == chat_record(id@, sender@, text@, timestamp@),
{
    Question { id, username: sender, message: text, timestamp }
}

/// Maps an upstream event to the record to store. Chat messages yield exactly
/// one question; every other kind yields none, which is a filter and no error.
pub fn get_question(event: RawEvent) -> (question: Option<Question>)
    ensures
        question is Some <==> event@ is ChatMessage,
        question_view(question) == record_of(event@),
{
    match event {
        RawEvent::ChatMessage { id, sender, text, timestamp } => {
            let canonical = timestamp.to_text();
            Some(chat_question(id, sender, text, canonical))
        },
        _ => None,
    }
}

} // verus!
