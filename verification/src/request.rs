//! The one request that is sent for a conversation.

use vstd::prelude::*;
use crate::json_text::{json_literal, quote_json};
use crate::message::{conversation_view, Message, MessageView};

verus! {

/// What is asked of the service: a model, and the conversation so far.
#[derive(Debug, Clone, PartialEq)]
pub struct CompletionBody {
    pub model: String,
    pub messages: Vec<Message>,
}

/// What a [`CompletionBody`] holds, as mathematical values.
pub struct BodyView {
    pub model: Seq<char>,
    pub messages: Seq<MessageView>,
}

impl View for CompletionBody {
    type V = BodyView;

    open spec fn view(&self) -> BodyView {
        BodyView { model: self.model@, messages: conversation_view(self.messages@) }
    }
}

/// The JSON object that stands for one message: its role, then its content.
pub open spec fn message_text(message: MessageView) -> Seq<char> {
    "{\"role\":"@ + json_literal(message.role) + ",\"content\":"@ + json_literal(message.content)
        + "}"@
}

/// The JSON objects of the messages, in their order, with a comma between
/// each two.
pub open spec fn messages_text(messages: Seq<MessageView>) -> Seq<char>
    decreases messages.len(),
{
    if messages.len() == 0 {
        Seq::empty()
    } else if messages.len() == 1 {
        message_text(messages[0])
    } else {
        messages_text(messages.drop_last()) + ","@ + message_text(messages.last())
    }
}

/// The JSON object that stands for a request body: the model, then the list
/// of the messages.
pub open spec fn body_text(body: BodyView) -> Seq<char> {
    "{\"model\":"@ + json_literal(body.model) + ",\"messages\":["@ + messages_text(body.messages)
        + "]}"@
}

/// Serialising keeps the order of a conversation: the text of two
/// conversations laid end to end is the text of the first, a comma, and the
/// text of the second.
pub proof fn lemma_messages_text_keeps_order(front: Seq<MessageView>, back: Seq<MessageView>)
    requires
        front.len() > 0,
        back.len() > 0,
    ensures
        messages_text(front + back) == messages_text(front) + ","@ + messages_text(back),
    decreases back.len(),
{
    let whole = front + back;
    assert(whole.drop_last() =~= front + back.drop_last());
    assert(whole.last() == back.last());
    if back.len() == 1 {
        assert(front + back.drop_last() =~= front);
    } else {
        lemma_messages_text_keeps_order(front, back.drop_last());
        assert(messages_text(whole) =~= messages_text(front) + ","@ + messages_text(back));
    }
}

impl Message {
    /// The message as a JSON object.
    pub fn to_json(&self) -> (text: String)
        ensures
            text@ == message_text(self@),
    {
        let mut text = String::from_str("{\"role\":");
        text.append(quote_json(self.role.as_str()).as_str());
        text.append(",\"content\":");
        text.append(quote_json(self.content.as_str()).as_str());
        text.append("}");
        text
    }
}

impl CompletionBody {
    /// The body as the JSON text that the service expects: every message as
    /// it is, in the order given.
    pub fn to_json(&self) -> (text: String)
        ensures
            text@ == body_text(self@),
    {
        let mut text = String::from_str("{\"model\":");
        text.append(quote_json(self.model.as_str()).as_str());
        text.append(",\"messages\":[");
        let ghost head = text@;
        let ghost views = conversation_view(self.messages@);
        let mut at: usize = 0;
        while at < self.messages.len()
            invariant
                at <= self.messages.len(),
                views == conversation_view(self.messages@),
                text@ == head + messages_text(views.take(at as int)),
            decreases self.messages.len() - at,
        {
            if at > 0 {
                text.append(",");
            }
            text.append(self.messages[at].to_json().as_str());
            proof {
                assert(views.take(at + 1).drop_last() =~= views.take(at as int));
                assert(views.take(at + 1).last() == self.messages@[at as int]@);
                assert(text@ =~= head + messages_text(views.take(at + 1)));
            }
            at += 1;
        }
        proof {
            assert(views.take(at as int) =~= views);
        }
        text.append("]}");
        proof {
            assert(text@ =~= body_text(self@));
        }
        text
    }
}

/// What goes over the wire for one call: a POST to `url` with the header
/// `Authorization` set to `authorization` and `body` as its JSON body.
#[derive(Clone, PartialEq)]
pub struct Request {
    pub url: String,
    pub authorization: String,
    pub body: String,
}

} // verus!
