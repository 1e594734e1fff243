//! The speaker of a conversation turn.

use vstd::prelude::*;

verus! {

/// Who speaks in one turn of a conversation.
#[derive(Debug, Clone, Copy, PartialEq, Eq)]
pub enum Role {
    System,
    User,
    Assistant,
}

impl Role {
    /// The lowercase token that stands for the role in a message.
    pub open spec fn text(self) -> Seq<char> {
        match self {
            Role::System => "system"@,
            Role::User => "user"@,
            Role::Assistant => "assistant"@,
        }
    }

    /// The role's token, borrowed.
    pub fn as_str(&self) -> (token: &'static str)
        ensures
            token@ == self.text(),
    {
        match self {
            Role::System => "system",
            Role::User => "user",
            Role::Assistant => "assistant",
        }
    }

    /// The role's token, owned: what a message carries in its `role` field.
    pub fn to_string(&self) -> (token: String)
        ensures
            token@ == self.text(),
    {
        self.as_str().to_owned()
    }
}

} // verus!
