//! The client's configuration, and how it is read from a TOML text.

use vstd::prelude::*;
use crate::document::Node;
use crate::schema::{outcome_view, table_of, text_of, Fault, Field};
use crate::toml_text::{parse_toml, toml_document, toml_fault_text, toml_member, toml_tree};

verus! {

/// What the client needs to know: which model to ask, and the credential to
/// ask with. Neither is checked here; the service judges both.
#[derive(Debug, Clone, PartialEq)]
pub struct Config {
    pub model: String,
    pub access_key: String,
}

/// What a [`Config`] holds, as mathematical values.
pub struct ConfigView {
    pub model: Seq<char>,
    pub access_key: Seq<char>,
}

impl View for Config {
    type V = ConfigView;

    open spec fn view(&self) -> ConfigView {
        ConfigView { model: self.model@, access_key: self.access_key@ }
    }
}

/// A configuration text that was not accepted.
#[derive(Debug, Clone, PartialEq)]
pub struct ConfigError {
    pub fault: Fault,
    /// The fault in words: for a syntax fault the parser's own message.
    pub detail: String,
}

impl ConfigError {
    /// A fault of the document's shape is described by its own sentence.
    pub open spec fn describes(&self) -> bool {
        self.fault != Fault::Syntax ==> self.detail@ == self.fault.text()
    }

    /// The diagnostic to show to the operator.
    pub fn to_string(&self) -> (sentence: String)
        ensures
            sentence@ == self.detail@,
    {
        self.detail.clone()
    }
}

/// The configuration that a TOML document tree holds: the texts `model` and
/// `access_key` of its table `openai`. Where several things are wrong, the
/// fault is that of the first in this order: the table, the model, the key.
pub open spec fn config_of(tree: Node) -> Result<ConfigView, Fault> {
    match table_of(tree, Field::Openai) {
        Err(fault) => Err(fault),
        Ok(section) => match (text_of(section, Field::Model), text_of(section, Field::AccessKey)) {
            (Ok(model), Ok(access_key)) => Ok(ConfigView { model, access_key }),
            (Err(fault), _) => Err(fault),
            (_, Err(fault)) => Err(fault),
        },
    }
}

/// The configuration that a text holds when read as TOML.
pub open spec fn config_of_text(text: Seq<char>) -> Result<ConfigView, Fault> {
    match toml_document(text) {
        None => Err(Fault::Syntax),
        Some(tree) => config_of(tree),
    }
}

/// A configuration holds the two texts of its document exactly as they stand
/// there.
pub proof fn lemma_config_fidelity(
    text: Seq<char>,
    tree: Node,
    section: Node,
    model: Seq<char>,
    access_key: Seq<char>,
)
    requires
        toml_document(text) == Some(tree),
        tree.member(Field::Openai.key()) == Some(section),
        section is Table,
        section.member(Field::Model.key()) == Some(Node::Text(model)),
        section.member(Field::AccessKey.key()) == Some(Node::Text(access_key)),
    ensures
        config_of_text(text) == Ok::<ConfigView, Fault>(ConfigView { model, access_key }),
{
}

/// A configuration comes from a text exactly when the text is a TOML document
/// whose table `openai` holds both texts: from no other text does one come.
pub proof fn lemma_config_accepted_exactly(text: Seq<char>)
    ensures
        config_of_text(text) is Ok <==> (toml_document(text) matches Some(tree) && table_of(
            tree,
            Field::Openai,
        ) matches Ok(section) && text_of(section, Field::Model) is Ok && text_of(
            section,
            Field::AccessKey,
        ) is Ok),
{
}

fn toml_text_at(parent: &toml::Value, field: Field) -> (outcome: Result<String, Fault>)
    ensures
        outcome_view(outcome) == text_of(toml_tree(*parent), field),
{
    match toml_member(parent, field.name()) {
        None => Err(Fault::Missing(field)),
        Some(inner) => match inner.as_str() {
            Some(text) => Ok(text.to_owned()),
            None => Err(Fault::Mistyped(field)),
        },
    }
}

fn toml_table_at<'a>(parent: &'a toml::Value, field: Field) -> (outcome: Result<&'a toml::Value, Fault>)
    ensures
        match outcome {
            Ok(inner) => table_of(toml_tree(*parent), field) == Ok::<Node, Fault>(toml_tree(*inner)),
            Err(fault) => table_of(toml_tree(*parent), field) == Err::<Node, Fault>(fault),
        },
{
    match toml_member(parent, field.name()) {
        None => Err(Fault::Missing(field)),
        Some(inner) => if inner.is_table() {
            Ok(inner)
        } else {
            Err(Fault::Mistyped(field))
        },
    }
}

/// Reads the configuration out of a parsed TOML document.
pub fn read_config(document: &toml::Value) -> (outcome: Result<Config, Fault>)
    ensures
        outcome_view(outcome) == config_of(toml_tree(*document)),
{
    let section = toml_table_at(document, Field::Openai)?;
    let model = toml_text_at(section, Field::Model)?;
    let access_key = toml_text_at(section, Field::AccessKey)?;
    Ok(Config { model, access_key })
}

/// Reads the configuration out of the text of a configuration file.
///
/// The text must be a TOML document with a table `openai` that holds the
/// strings `model` and `access_key`; whatever else it holds is passed over.
pub fn load_config(config_text: &str) -> (outcome: Result<Config, ConfigError>)
    ensures
        match outcome {
            Ok(config) => config_of_text(config_text@) == Ok::<ConfigView, Fault>(config@),
            Err(error) => config_of_text(config_text@) == Err::<ConfigView, Fault>(error.fault)
                && error.describes(),
        },
{
    match parse_toml(config_text) {
        Err(fault) => Err(ConfigError { fault: Fault::Syntax, detail: toml_fault_text(&fault) }),
        Ok(document) => match read_config(&document) {
            Ok(config) => Ok(config),
            Err(fault) => Err(ConfigError { fault, detail: fault.describe() }),
        },
    }
}

} // verus!
