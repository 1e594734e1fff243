//! Named fields of the documents this library reads, and what can be wrong
//! with one.

use vstd::prelude::*;
use crate::document::Node;

verus! {

/// A place in a document that the library reads by name.
#[derive(Debug, Clone, Copy, PartialEq, Eq)]
pub enum Field {
    /// The document as a whole, which must be a table.
    Document,
    /// The provider's table of a configuration.
    Openai,
    AccessKey,
    Model,
    Id,
    Object,
    Created,
    Usage,
    PromptTokens,
    CompletionTokens,
    TotalTokens,
    Choices,
    Message,
    Role,
    Content,
    FinishReason,
    Index,
}

impl Field {
    /// The key under which the field stands in its table, exactly as the
    /// remote service and the configuration file spell it.
    pub open spec fn key(self) -> Seq<char> {
        match self {
            Field::Document => "document"@,
            Field::Openai => "openai"@,
            Field::AccessKey => "access_key"@,
            Field::Model => "model"@,
            Field::Id => "id"@,
            Field::Object => "object"@,
            Field::Created => "created"@,
            Field::Usage => "usage"@,
            Field::PromptTokens => "prompt_tokens"@,
            Field::CompletionTokens => "completion_tokens"@,
            Field::TotalTokens => "total_tokens"@,
            Field::Choices => "choices"@,
            Field::Message => "message"@,
            Field::Role => "role"@,
            Field::Content => "content"@,
            Field::FinishReason => "finish_reason"@,
            Field::Index => "index"@,
        }
    }

    /// The field's key, for a lookup or a diagnostic.
    pub fn name(&self) -> (name: &'static str)
        ensures
            name@ == self.key(),
    {
        match self {
            Field::Document => "document",
            Field::Openai => "openai",
            Field::AccessKey => "access_key",
            Field::Model => "model",
            Field::Id => "id",
            Field::Object => "object",
            Field::Created => "created",
            Field::Usage => "usage",
            Field::PromptTokens => "prompt_tokens",
            Field::CompletionTokens => "completion_tokens",
            Field::TotalTokens => "total_tokens",
            Field::Choices => "choices",
            Field::Message => "message",
            Field::Role => "role",
            Field::Content => "content",
            Field::FinishReason => "finish_reason",
            Field::Index => "index",
        }
    }
}

/// Why a text was not accepted as the document that was expected.
#[derive(Debug, Clone, Copy, PartialEq, Eq)]
pub enum Fault {
    /// The text is not a document of its format at all.
    Syntax,
    /// A required field is absent.
    Missing(Field),
    /// A value is present but is not of the kind that the field asks for.
    Mistyped(Field),
}

impl Fault {
    /// The sentence that describes a fault of the document's shape.
    pub open spec fn text(self) -> Seq<char> {
        match self {
            Fault::Syntax => "malformed document"@,
            Fault::Missing(field) => "missing field `"@ + field.key() + "`"@,
            Fault::Mistyped(field) => "invalid type for field `"@ + field.key() + "`"@,
        }
    }

    /// Describes the fault in words.
    pub fn describe(&self) -> (sentence: String)
        ensures
            sentence@ == self.text(),
    {
        match self {
            Fault::Syntax => String::from_str("malformed document"),
            Fault::Missing(field) => {
                let mut sentence = String::from_str("missing field `");
                sentence.append(field.name());
                sentence.append("`");
                sentence
            },
            Fault::Mistyped(field) => {
                let mut sentence = String::from_str("invalid type for field `");
                sentence.append(field.name());
                sentence.append("`");
                sentence
            },
        }
    }
}

/// The model of an outcome: the model of the value, or the fault as it is.
pub open spec fn outcome_view<T: View>(outcome: Result<T, Fault>) -> Result<T::V, Fault> {
    match outcome {
        Ok(value) => Ok(value@),
        Err(fault) => Err(fault),
    }
}

/// The text under `field` in the table `parent`.
pub open spec fn text_of(parent: Node, field: Field) -> Result<Seq<char>, Fault> {
    match parent.member(field.key()) {
        None => Err(Fault::Missing(field)),
        Some(Node::Text(text)) => Ok(text),
        Some(_) => Err(Fault::Mistyped(field)),
    }
}

/// The integer under `field` in the table `parent`, which must fit in 64
/// bits with a sign.
pub open spec fn integer_of(parent: Node, field: Field) -> Result<int, Fault> {
    match parent.member(field.key()) {
        None => Err(Fault::Missing(field)),
        Some(Node::Integer(number)) => if i64::MIN <= number <= i64::MAX {
            Ok(number)
        } else {
            Err(Fault::Mistyped(field))
        },
        Some(_) => Err(Fault::Mistyped(field)),
    }
}

/// The table under `field` in the table `parent`.
pub open spec fn table_of(parent: Node, field: Field) -> Result<Node, Fault> {
    match parent.member(field.key()) {
        None => Err(Fault::Missing(field)),
        Some(Node::Table(entries)) => Ok(Node::Table(entries)),
        Some(_) => Err(Fault::Mistyped(field)),
    }
}

/// The list under `field` in the table `parent`.
pub open spec fn list_of(parent: Node, field: Field) -> Result<Seq<Node>, Fault> {
    match parent.member(field.key()) {
        None => Err(Fault::Missing(field)),
        Some(Node::List(items)) => Ok(items),
        Some(_) => Err(Fault::Mistyped(field)),
    }
}

} // verus!
