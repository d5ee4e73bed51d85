//! What the stream source delivers.

use crate::timestamp::Timestamp;
use vstd::prelude::*;

verus! {

/// One event of the upstream feed, tagged by its kind. Only a chat message
/// carries data that the pipeline reads; every other kind is present as a bare
/// tag.
#[derive(Clone, Debug, PartialEq, Eq)]
pub enum RawEvent {
    /// A chat was cleared, or a user was timed out or banned.
    ClearChat,
    /// A single message was deleted.
    ClearMsg,
    /// The state of the logged-in user, sent once after login.
    GlobalUserState,
    /// A user joined a channel.
    Join,
    /// A notice from the server.
    Notice,
    /// A user left a channel.
    Part,
    /// A keep-alive request.
    Ping,
    /// A keep-alive reply.
    Pong,
    /// A message that a user sent to a channel.
    ChatMessage {
        /// Identifier of the message, unique across the feed.
        id: String,
        /// Login of the user who sent it.
        sender: String,
        /// The text as sent.
        text: String,
        /// When the server received it.
        timestamp: Timestamp,
    },
    /// The server asks its clients to reconnect.
    Reconnect,
    /// The settings of a channel.
    RoomState,
    /// A channel event such as a subscription or a raid.
    UserNotice,
    /// The state of the logged-in user in one channel.
    UserState,
    /// A private message between two users.
    Whisper,
    /// Any kind that has no tag of its own.
    Other,
}

/// The mathematical value of a [`RawEvent`].
pub enum RawEventView {
    ClearChat,
    ClearMsg,
    GlobalUserState,
    Join,
    Notice,
    Part,
    Ping,
    Pong,
    ChatMessage { id: Seq<char>, sender: Seq<char>, text: Seq<char>, timestamp: int },
    Reconnect,
    RoomState,
    UserNotice,
    UserState,
    Whisper,
    Other,
}

impl View for RawEvent {
    type V = RawEventView;

    open spec fn view(&self) -> RawEventView {
        match *self {
            RawEvent::ClearChat => RawEventView::ClearChat,
            RawEvent::ClearMsg => RawEventView::ClearMsg,
            RawEvent::GlobalUserState => RawEventView::GlobalUserState,
            RawEvent::Join => RawEventView::Join,
            RawEvent::Notice => RawEventView::Notice,
            RawEvent::Part => RawEventView::Part,
            RawEvent::Ping => RawEventView::Ping,
            RawEvent::Pong => RawEventView::Pong,
            RawEvent::ChatMessage { id, sender, text, timestamp } => RawEventView::ChatMessage {
                id: id@,
                sender: sender@,
                text: text@,
                timestamp: timestamp@,
            },
            RawEvent::Reconnect => RawEventView::Reconnect,
            RawEvent::RoomState => RawEventView::RoomState,
            RawEvent::UserNotice => RawEventView::UserNotice,
            RawEvent::UserState => RawEventView::UserState,
            RawEvent::Whisper => RawEventView::Whisper,
            RawEvent::Other => RawEventView::Other,
        }
    }
}

} // verus!
