//! Subscribers and the inbound events that reveal them.

use vstd::prelude::*;

verus! {

/// A possibly absent text, as a sequence of characters.
pub open spec fn text_of(o: Option<String>) -> Option<Seq<char>> {
    match o {
        Some(s) => Some(s@),
        None => None,
    }
}

/// One chat that receives the price updates. The `id` is its identity; the
/// other fields are what the platform last told about it.
#[derive(Debug, PartialEq, Eq)]
pub struct Chat {
    pub id: i64,
    pub first_name: Option<String>,
    pub last_name: Option<String>,
    pub username: Option<String>,
    pub chat_type: String,
}

/// A chat as a value: its identity as an integer, its texts as sequences.
pub struct ChatView {
    pub id: int,
    pub first_name: Option<Seq<char>>,
    pub last_name: Option<Seq<char>>,
    pub username: Option<Seq<char>>,
    pub chat_type: Seq<char>,
}

impl View for Chat {
    type V = ChatView;

    open spec fn view(&self) -> ChatView {
        ChatView {
            id: self.id as int,
            first_name: text_of(self.first_name),
            last_name: text_of(self.last_name),
            username: text_of(self.username),
            chat_type: self.chat_type@,
        }
    }
}

/// A copy of a possibly absent text.
fn copy_text(o: &Option<String>) -> (c: Option<String>)
    ensures
        text_of(c) == text_of(*o),
{
    match o {
        Some(s) => Some(s.clone()),
        None => None,
    }
}

impl Clone for Chat {
    /// A second chat with the same identity and the same texts.
    fn clone(&self) -> (c: Chat)
        ensures
            c@ == self@,
    {
        Chat {
            id: self.id,
            first_name: copy_text(&self.first_name),
            last_name: copy_text(&self.last_name),
            username: copy_text(&self.username),
            chat_type: self.chat_type.clone(),
        }
    }
}

/// The message that an inbound event carries.
#[derive(Debug, PartialEq, Eq)]
pub struct Message {
    pub message_id: u32,
    pub chat: Chat,
    pub date: i64,
    pub text: String,
}

/// A message as a value.
pub struct MessageView {
    pub message_id: int,
    pub chat: ChatView,
    pub date: int,
    pub text: Seq<char>,
}

impl View for Message {
    type V = MessageView;

    open spec fn view(&self) -> MessageView {
        MessageView {
            message_id: self.message_id as int,
            chat: self.chat@,
            date: self.date as int,
            text: self.text@,
        }
    }
}

/// One inbound event: a message from a chat, under the platform's sequence number.
#[derive(Debug, PartialEq, Eq)]
pub struct Update {
    pub update_id: i64,
    pub message: Message,
}

/// An inbound event as a value.
pub struct UpdateView {
    pub update_id: int,
    pub message: MessageView,
}

impl View for Update {
    type V = UpdateView;

    open spec fn view(&self) -> UpdateView {
        UpdateView { update_id: self.update_id as int, message: self.message@ }
    }
}

} // verus!
