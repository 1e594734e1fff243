//! From the text of a reply to a strictly typed response.
//!
//! The reply must be a JSON object that holds every field of the response
//! under the service's own names. Fields that the schema does not know are
//! passed over. Nothing is defaulted: a reply that lacks a field, or holds a
//! value of another kind in it, is refused as a whole.

use vstd::prelude::*;
use crate::completion::{
    choices_view, ChoiceView, CompletionChoice, CompletionResponse, ResponseView, UsageStats,
    UsageView,
};
use crate::document::Node;
use crate::json_text::{
    json_document, json_fault_text, json_member, json_tree, json_trees, parse_json,
};
use crate::message::{Message, MessageView};
use crate::schema::{integer_of, list_of, outcome_view, table_of, text_of, Fault, Field};

verus! {

/// The message that a table holds: the texts `role` and `content`.
pub open spec fn message_of(table: Node) -> Result<MessageView, Fault> {
    match (text_of(table, Field::Role), text_of(table, Field::Content)) {
        (Ok(role), Ok(content)) => Ok(MessageView { role, content }),
        (Err(fault), _) => Err(fault),
        (_, Err(fault)) => Err(fault),
    }
}

/// The message in the table under `message` of `parent`.
pub open spec fn message_in(parent: Node) -> Result<MessageView, Fault> {
    match table_of(parent, Field::Message) {
        Ok(table) => message_of(table),
        Err(fault) => Err(fault),
    }
}

/// The token accounting that a table holds: three integers.
pub open spec fn usage_of(table: Node) -> Result<UsageView, Fault> {
    match (
        integer_of(table, Field::PromptTokens),
        integer_of(table, Field::CompletionTokens),
        integer_of(table, Field::TotalTokens),
    ) {
        (Ok(prompt_tokens), Ok(completion_tokens), Ok(total_tokens)) => Ok(
            UsageView { prompt_tokens, completion_tokens, total_tokens },
        ),
        (Err(fault), _, _) => Err(fault),
        (_, Err(fault), _) => Err(fault),
        (_, _, Err(fault)) => Err(fault),
    }
}

/// The token accounting in the table under `usage` of `parent`.
pub open spec fn usage_in(parent: Node) -> Result<UsageView, Fault> {
    match table_of(parent, Field::Usage) {
        Ok(table) => usage_of(table),
        Err(fault) => Err(fault),
    }
}

/// The choice that one item of the list `choices` holds. The item must be a
/// table; its fields are read in the order message, finish reason, index.
pub open spec fn choice_of(item: Node) -> Result<ChoiceView, Fault> {
    if !(item is Table) {
        Err(Fault::Mistyped(Field::Choices))
    } else {
        match (
            message_in(item),
            text_of(item, Field::FinishReason),
            integer_of(item, Field::Index),
        ) {
            (Ok(message), Ok(finish_reason), Ok(index)) => Ok(
                ChoiceView { message, finish_reason, index },
            ),
            (Err(fault), _, _) => Err(fault),
            (_, Err(fault), _) => Err(fault),
            (_, _, Err(fault)) => Err(fault),
        }
    }
}

/// The choices that a list of items holds, in the list's order; where some
/// item is refused, the fault of the first such item.
pub open spec fn choices_of(items: Seq<Node>) -> Result<Seq<ChoiceView>, Fault>
    decreases items.len(),
{
    if items.len() == 0 {
        Ok(Seq::empty())
    } else {
        match choices_of(items.drop_last()) {
            Err(fault) => Err(fault),
            Ok(front) => match choice_of(items.last()) {
                Err(fault) => Err(fault),
                Ok(choice) => Ok(front.push(choice)),
            },
        }
    }
}

/// The choices in the list under `choices` of `parent`.
pub open spec fn choices_in(parent: Node) -> Result<Seq<ChoiceView>, Fault> {
    match list_of(parent, Field::Choices) {
        Ok(items) => choices_of(items),
        Err(fault) => Err(fault),
    }
}

/// The response that a JSON document tree holds. The document must be a
/// table. Where several things are wrong, the fault is that of the first in
/// the schema's order: id, object, created, model, usage, choices, each with
/// what lies below it.
pub open spec fn response_of(tree: Node) -> Result<ResponseView, Fault> {
    if !(tree is Table) {
        Err(Fault::Mistyped(Field::Document))
    } else {
        match (
            text_of(tree, Field::Id),
            text_of(tree, Field::Object),
            integer_of(tree, Field::Created),
            text_of(tree, Field::Model),
            usage_in(tree),
            choices_in(tree),
        ) {
            (Ok(id), Ok(object), Ok(created), Ok(model), Ok(usage), Ok(choices)) => Ok(
                ResponseView { id, object, created, model, usage, choices },
            ),
            (Err(fault), _, _, _, _, _) => Err(fault),
            (_, Err(fault), _, _, _, _) => Err(fault),
            (_, _, Err(fault), _, _, _) => Err(fault),
            (_, _, _, Err(fault), _, _) => Err(fault),
            (_, _, _, _, Err(fault), _) => Err(fault),
            (_, _, _, _, _, Err(fault)) => Err(fault),
        }
    }
}

/// The response that a text holds when read as JSON.
pub open spec fn response_of_text(text: Seq<char>) -> Result<ResponseView, Fault> {
    match json_document(text) {
        None => Err(Fault::Syntax),
        Some(tree) => response_of(tree),
    }
}

/// A response holds what its document holds, field by field.
pub proof fn lemma_response_fidelity(tree: Node, response: ResponseView)
    requires
        response_of(tree) == Ok::<ResponseView, Fault>(response),
    ensures
        tree is Table,
        text_of(tree, Field::Id) == Ok::<Seq<char>, Fault>(response.id),
        text_of(tree, Field::Object) == Ok::<Seq<char>, Fault>(response.object),
        integer_of(tree, Field::Created) == Ok::<int, Fault>(response.created),
        text_of(tree, Field::Model) == Ok::<Seq<char>, Fault>(response.model),
        usage_in(tree) == Ok::<UsageView, Fault>(response.usage),
        choices_in(tree) == Ok::<Seq<ChoiceView>, Fault>(response.choices),
{
}

/// Once a front part of a list is refused, the whole list is refused for the
/// same fault.
proof fn lemma_fault_of_front_stands(items: Seq<Node>, front: int)
    requires
        0 <= front <= items.len(),
        choices_of(items.take(front)) is Err,
    ensures
        choices_of(items) == choices_of(items.take(front)),
    decreases items.len() - front,
{
    if front == items.len() {
        assert(items.take(front) =~= items);
    } else {
        assert(items.take(front + 1).drop_last() =~= items.take(front));
        lemma_fault_of_front_stands(items, front + 1);
    }
}

/// A list gives choices exactly when each of its items does, and then it
/// gives the choices of its items, one for one and in the list's order.
pub proof fn lemma_choices_item_by_item(items: Seq<Node>)
    ensures
        choices_of(items) is Ok <==> (forall|i: int|
            0 <= i < items.len() ==> (#[trigger] choice_of(items[i])) is Ok),
        choices_of(items) matches Ok(choices) ==> choices.len() == items.len() && (forall|i: int|
            0 <= i < items.len() ==> #[trigger] choice_of(items[i]) == Ok::<ChoiceView, Fault>(
                choices[i],
            )),
    decreases items.len(),
{
    if items.len() > 0 {
        let front = items.drop_last();
        lemma_choices_item_by_item(front);
        assert(forall|i: int| 0 <= i < front.len() ==> front[i] == items[i]);
        if choices_of(items) is Ok {
            assert forall|i: int| 0 <= i < items.len() implies (#[trigger] choice_of(
                items[i],
            )) is Ok by {
                if i < front.len() {
                    assert(front[i] == items[i]);
                }
            }
        }
    }
}

/// A list is refused for the fault of the first of its items that is
/// refused.
pub proof fn lemma_choices_first_fault(items: Seq<Node>, at: int)
    requires
        0 <= at < items.len(),
        forall|i: int| 0 <= i < at ==> (#[trigger] choice_of(items[i])) is Ok,
        choice_of(items[at]) is Err,
    ensures
        choices_of(items) == Err::<Seq<ChoiceView>, Fault>(choice_of(items[at])->Err_0),
{
    let front = items.take(at);
    lemma_choices_item_by_item(front);
    assert(forall|i: int| 0 <= i < at ==> front[i] == items[i]);
    assert(choices_of(front) is Ok);
    assert(items.take(at + 1).drop_last() =~= front);
    assert(items.take(at + 1).last() == items[at]);
    lemma_fault_of_front_stands(items, at + 1);
}

/// A reply is refused, and no response comes of it, where it is not JSON or
/// lacks one of the six fields of a response.
pub proof fn lemma_response_refusal(text: Seq<char>, field: Field)
    requires
        field == Field::Id || field == Field::Object || field == Field::Created || field
            == Field::Model || field == Field::Usage || field == Field::Choices,
        json_document(text) matches Some(tree) ==> tree.member(field.key()) is None,
    ensures
        response_of_text(text) is Err,
{
}

/// A reply that was received but is not a response.
#[derive(Debug, Clone, PartialEq)]
pub struct ResponseSchemaError {
    /// The reply as it came, for diagnosis: a service that refuses a request
    /// often answers with an error object of another shape.
    pub raw: String,
    pub fault: Fault,
    /// The fault in words: for a syntax fault the parser's own message.
    pub detail: String,
}

impl ResponseSchemaError {
    /// A fault of the document's shape is described by its own sentence.
    pub open spec fn describes(&self) -> bool {
        self.fault != Fault::Syntax ==> self.detail@ == self.fault.text()
    }

    /// The diagnostic to show beside the raw reply.
    pub fn to_string(&self) -> (sentence: String)
        ensures
            sentence@ == self.detail@,
    {
        self.detail.clone()
    }
}

fn json_text_at(parent: &serde_json::Value, field: Field) -> (outcome: Result<String, Fault>)
    ensures
        outcome_view(outcome) == text_of(json_tree(*parent), field),
{
    match json_member(parent, field.name()) {
        None => Err(Fault::Missing(field)),
        Some(inner) => match inner.as_str() {
            Some(text) => Ok(text.to_owned()),
            None => Err(Fault::Mistyped(field)),
        },
    }
}

fn json_integer_at(parent: &serde_json::Value, field: Field) -> (outcome: Result<i64, Fault>)
    ensures
        match outcome {
            Ok(number) => integer_of(json_tree(*parent), field) == Ok::<int, Fault>(number as int),
            Err(fault) => integer_of(json_tree(*parent), field) == Err::<int, Fault>(fault),
        },
{
    match json_member(parent, field.name()) {
        None => Err(Fault::Missing(field)),
        Some(inner) => match inner.as_i64() {
            Some(number) => Ok(number),
            None => Err(Fault::Mistyped(field)),
        },
    }
}

fn json_table_at<'a>(parent: &'a serde_json::Value, field: Field) -> (outcome: Result<
    &'a serde_json::Value,
    Fault,
>)
    ensures
        match outcome {
            Ok(inner) => table_of(json_tree(*parent), field) == Ok::<Node, Fault>(
                json_tree(*inner),
            ),
            Err(fault) => table_of(json_tree(*parent), field) == Err::<Node, Fault>(fault),
        },
{
    match json_member(parent, field.name()) {
        None => Err(Fault::Missing(field)),
        Some(inner) => if inner.is_object() {
            Ok(inner)
        } else {
            Err(Fault::Mistyped(field))
        },
    }
}

fn json_list_at<'a>(parent: &'a serde_json::Value, field: Field) -> (outcome: Result<
    &'a Vec<serde_json::Value>,
    Fault,
>)
    ensures
        match outcome {
            Ok(items) => list_of(json_tree(*parent), field) == Ok::<Seq<Node>, Fault>(
                json_trees(items@),
            ),
            Err(fault) => list_of(json_tree(*parent), field) == Err::<Seq<Node>, Fault>(fault),
        },
{
    match json_member(parent, field.name()) {
        None => Err(Fault::Missing(field)),
        Some(inner) => match inner.as_array() {
            Some(items) => Ok(items),
            None => Err(Fault::Mistyped(field)),
        },
    }
}

fn decode_message(parent: &serde_json::Value) -> (outcome: Result<Message, Fault>)
    ensures
        outcome_view(outcome) == message_in(json_tree(*parent)),
{
    let table = json_table_at(parent, Field::Message)?;
    let role = json_text_at(table, Field::Role)?;
    let content = json_text_at(table, Field::Content)?;
    Ok(Message { role, content })
}

fn decode_usage(parent: &serde_json::Value) -> (outcome: Result<UsageStats, Fault>)
    ensures
        outcome_view(outcome) == usage_in(json_tree(*parent)),
{
    let table = json_table_at(parent, Field::Usage)?;
    let prompt_tokens = json_integer_at(table, Field::PromptTokens)?;
    let completion_tokens = json_integer_at(table, Field::CompletionTokens)?;
    let total_tokens = json_integer_at(table, Field::TotalTokens)?;
    Ok(UsageStats { prompt_tokens, completion_tokens, total_tokens })
}

fn decode_choice(item: &serde_json::Value) -> (outcome: Result<CompletionChoice, Fault>)
    ensures
        outcome_view(outcome) == choice_of(json_tree(*item)),
{
    if !item.is_object() {
        return Err(Fault::Mistyped(Field::Choices));
    }
    let message = decode_message(item)?;
    let finish_reason = json_text_at(item, Field::FinishReason)?;
    let index = json_integer_at(item, Field::Index)?;
    Ok(CompletionChoice { message, finish_reason, index })
}

fn decode_choices(items: &Vec<serde_json::Value>) -> (outcome: Result<Vec<CompletionChoice>, Fault>)
    ensures
        match outcome {
            Ok(choices) => choices_of(json_trees(items@)) == Ok::<Seq<ChoiceView>, Fault>(
                choices_view(choices@),
            ),
            Err(fault) => choices_of(json_trees(items@)) == Err::<Seq<ChoiceView>, Fault>(fault),
        },
{
    let ghost trees = json_trees(items@);
    let mut choices: Vec<CompletionChoice> = Vec::new();
    let mut at: usize = 0;
    proof {
        assert(trees.take(0).len() == 0);
        assert(choices_view(choices@) =~= Seq::<ChoiceView>::empty());
    }
    while at < items.len()
        invariant
            at <= items.len(),
            trees == json_trees(items@),
            choices_of(trees.take(at as int)) == Ok::<Seq<ChoiceView>, Fault>(
                choices_view(choices@),
            ),
        decreases items.len() - at,
    {
        proof {
            assert(trees.take(at + 1).drop_last() =~= trees.take(at as int));
            assert(trees.take(at + 1).last() == json_tree(items@[at as int]));
        }
        match decode_choice(&items[at]) {
            Ok(choice) => {
                proof {
                    assert(choices_view(choices@.push(choice)) =~= choices_view(choices@).push(
                        choice@,
                    ));
                }
                choices.push(choice);
            },
            Err(fault) => {
                proof {
                    lemma_fault_of_front_stands(trees, at + 1);
                }
                return Err(fault);
            },
        }
        at += 1;
    }
    proof {
        assert(trees.take(at as int) =~= trees);
    }
    Ok(choices)
}

/// Turns a parsed JSON document into a response, or says what is wrong with
/// it.
pub fn decode_response(document: &serde_json::Value) -> (outcome: Result<CompletionResponse, Fault>)
    ensures
        outcome_view(outcome) == response_of(json_tree(*document)),
{
    if !document.is_object() {
        return Err(Fault::Mistyped(Field::Document));
    }
    let id = json_text_at(document, Field::Id)?;
    let object = json_text_at(document, Field::Object)?;
    let created = json_integer_at(document, Field::Created)?;
    let model = json_text_at(document, Field::Model)?;
    let usage = decode_usage(document)?;
    let items = json_list_at(document, Field::Choices)?;
    let choices = decode_choices(items)?;
    Ok(CompletionResponse { id, object, created, model, usage, choices })
}

/// Reads the text of a reply as a response.
///
/// Succeeds exactly on the texts that are JSON documents of the response's
/// shape. Every refusal carries the text as it came.
pub fn parse_response(reply: &str) -> (outcome: Result<CompletionResponse, ResponseSchemaError>)
    ensures
        match outcome {
            Ok(response) => response_of_text(reply@) == Ok::<ResponseView, Fault>(response@),
            Err(error) => response_of_text(reply@) == Err::<ResponseView, Fault>(error.fault)
                && error.raw@ == reply@ && error.describes(),
        },
{
    match parse_json(reply) {
        Err(fault) => Err(
            ResponseSchemaError {
                raw: reply.to_owned(),
                fault: Fault::Syntax,
                detail: json_fault_text(&fault),
            },
        ),
        Ok(document) => match decode_response(&document) {
            Ok(response) => Ok(response),
            Err(fault) => Err(
                ResponseSchemaError { raw: reply.to_owned(), fault, detail: fault.describe() },
            ),
        },
    }
}

} // verus!
