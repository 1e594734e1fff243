//! One turn of a conversation.

use vstd::prelude::*;

verus! {

/// One turn of a conversation: who spoke, and what was said.
///
/// The role is a plain string. Outbound it is a [`Role`](crate::role::Role)'s
/// token; inbound any string is taken as it comes.
#[derive(Debug, Clone, PartialEq)]
pub struct Message {
    pub role: String,
    pub content: String,
}

/// What a [`Message`] holds, as mathematical values.
pub struct MessageView {
    pub role: Seq<char>,
    pub content: Seq<char>,
}

impl View for Message {
    type V = MessageView;

    open spec fn view(&self) -> MessageView {
        MessageView { role: self.role@, content: self.content@ }
    }
}

impl Default for Message {
    /// The empty message: no role, no content.
    fn default() -> (message: Message)
        ensures
            message@.role == Seq::<char>::empty(),
            message@.content == Seq::<char>::empty(),
    {
        Message { role: String::new(), content: String::new() }
    }
}

/// The models of a conversation's messages, in order.
pub open spec fn conversation_view(messages: Seq<Message>) -> Seq<MessageView> {
    messages.map_values(|message: Message| message@)
}

} // verus!
