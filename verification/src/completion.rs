//! The reply of the completion service, as strictly typed data.

use vstd::prelude::*;
use crate::message::{Message, MessageView};

verus! {

/// Token accounting of one completion.
///
/// The service is expected to report `total_tokens` as the sum of the other
/// two; the library takes the three numbers as they come.
#[derive(Debug, Clone, PartialEq)]
pub struct UsageStats {
    pub prompt_tokens: i64,
    pub completion_tokens: i64,
    pub total_tokens: i64,
}

/// What a [`UsageStats`] holds, as mathematical values.
pub struct UsageView {
    pub prompt_tokens: int,
    pub completion_tokens: int,
    pub total_tokens: int,
}

impl View for UsageStats {
    type V = UsageView;

    open spec fn view(&self) -> UsageView {
        UsageView {
            prompt_tokens: self.prompt_tokens as int,
            completion_tokens: self.completion_tokens as int,
            total_tokens: self.total_tokens as int,
        }
    }
}

impl Default for UsageStats {
    /// No tokens at all.
    fn default() -> (usage: UsageStats)
        ensures
            usage@ == (UsageView { prompt_tokens: 0, completion_tokens: 0, total_tokens: 0 }),
    {
        UsageStats { prompt_tokens: 0, completion_tokens: 0, total_tokens: 0 }
    }
}

/// One alternative continuation that the service generated.
#[derive(Debug, Clone, PartialEq)]
pub struct CompletionChoice {
    /// The assistant's turn.
    pub message: Message,
    /// Why generation stopped; an opaque string.
    pub finish_reason: String,
    /// Zero-based position among the alternatives of one reply.
    pub index: i64,
}

/// What a [`CompletionChoice`] holds, as mathematical values.
pub struct ChoiceView {
    pub message: MessageView,
    pub finish_reason: Seq<char>,
    pub index: int,
}

impl View for CompletionChoice {
    type V = ChoiceView;

    open spec fn view(&self) -> ChoiceView {
        ChoiceView {
            message: self.message@,
            finish_reason: self.finish_reason@,
            index: self.index as int,
        }
    }
}

impl Default for CompletionChoice {
    /// The empty choice: an empty message, no finish reason, index 0.
    fn default() -> (choice: CompletionChoice)
        ensures
            choice@.message.role == Seq::<char>::empty(),
            choice@.message.content == Seq::<char>::empty(),
            choice@.finish_reason == Seq::<char>::empty(),
            choice@.index == 0,
    {
        CompletionChoice { message: Message::default(), finish_reason: String::new(), index: 0 }
    }
}

/// The models of a reply's choices, in order.
pub open spec fn choices_view(choices: Seq<CompletionChoice>) -> Seq<ChoiceView> {
    choices.map_values(|choice: CompletionChoice| choice@)
}

/// The parsed reply of the completion service.
#[derive(Debug, Clone, PartialEq)]
pub struct CompletionResponse {
    pub id: String,
    pub object: String,
    /// When the reply was created, as the service's integer timestamp.
    pub created: i64,
    /// The model that the service actually used.
    pub model: String,
    pub usage: UsageStats,
    pub choices: Vec<CompletionChoice>,
}

/// What a [`CompletionResponse`] holds, as mathematical values.
pub struct ResponseView {
    pub id: Seq<char>,
    pub object: Seq<char>,
    pub created: int,
    pub model: Seq<char>,
    pub usage: UsageView,
    pub choices: Seq<ChoiceView>,
}

impl View for CompletionResponse {
    type V = ResponseView;

    open spec fn view(&self) -> ResponseView {
        ResponseView {
            id: self.id@,
            object: self.object@,
            created: self.created as int,
            model: self.model@,
            usage: self.usage@,
            choices: choices_view(self.choices@),
        }
    }
}

impl Default for CompletionResponse {
    /// The empty reply: empty strings, zero numbers, no choices.
    fn default() -> (response: CompletionResponse)
        ensures
            response@.id == Seq::<char>::empty(),
            response@.object == Seq::<char>::empty(),
            response@.created == 0,
            response@.model == Seq::<char>::empty(),
            response@.usage == (UsageView { prompt_tokens: 0, completion_tokens: 0, total_tokens: 0 }),
            response@.choices == Seq::<ChoiceView>::empty(),
    {
        CompletionResponse {
            id: String::new(),
            object: String::new(),
            created: 0,
            model: String::new(),
            usage: UsageStats::default(),
            choices: Vec::new(),
        }
    }
}

} // verus!
