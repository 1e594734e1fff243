//! The completion client: one call, from a conversation to a response.

use vstd::prelude::*;
use crate::completion::{CompletionResponse, ResponseView};
use crate::config::{config_of_text, load_config, Config, ConfigError, ConfigView};
use crate::message::{conversation_view, Message};
use crate::reply::{parse_response, response_of_text, ResponseSchemaError};
use crate::request::{body_text, BodyView, CompletionBody, Request};
use crate::schema::Fault;

verus! {

/// Where completions are asked for.
pub const URL_COMPLETION: &'static str = "https://api.openai.com/v1/chat/completions";

/// The exchange with the service failed before a reply was read in full.
#[derive(Debug, Clone, PartialEq)]
pub struct TransportError {
    /// What the transport said of the failure.
    pub detail: String,
}

/// Why a call gave no response.
#[derive(Debug, Clone, PartialEq)]
pub enum SubmitError {
    Transport(TransportError),
    ResponseSchema(ResponseSchemaError),
}

impl SubmitError {
    /// The diagnostic of the failure.
    pub fn to_string(&self) -> (sentence: String)
        ensures
            sentence@ == match *self {
                SubmitError::Transport(error) => error.detail@,
                SubmitError::ResponseSchema(error) => error.detail@,
            },
    {
        match self {
            SubmitError::Transport(error) => error.detail.clone(),
            SubmitError::ResponseSchema(error) => error.detail.clone(),
        }
    }
}

/// A client of the completion service. It holds its configuration and
/// nothing else, so one client serves any number of calls.
pub struct Gptcli {
    config: Config,
}

impl View for Gptcli {
    type V = ConfigView;

    closed spec fn view(&self) -> ConfigView {
        self.config@
    }
}

impl Gptcli {
    /// Whether `request` is the request that this client sends for the
    /// conversation `messages`: to the fixed endpoint, under the configured
    /// credential, with the configured model and the messages as they are
    /// and in their order.
    pub open spec fn sends(&self, messages: Seq<Message>, request: Request) -> bool {
        &&& request.url@ == URL_COMPLETION@
        &&& request.authorization@ == "Bearer "@ + self@.access_key
        &&& request.body@ == body_text(
            BodyView { model: self@.model, messages: conversation_view(messages) },
        )
    }

    /// Whether `outcome` is what a call ends with when the transport reports
    /// `exchange`. A failure of the transport is passed on in its own words
    /// and nothing is parsed. A reply gives a response exactly when it is a
    /// JSON document of the response's shape; else the refusal names the
    /// fault and carries the reply as it came.
    pub open spec fn concludes(
        exchange: Result<String, String>,
        outcome: Result<CompletionResponse, SubmitError>,
    ) -> bool {
        match exchange {
            Err(failure) => outcome matches Err(SubmitError::Transport(error)) && error.detail@
                == failure@,
            Ok(reply) => match outcome {
                Ok(response) => response_of_text(reply@) == Ok::<ResponseView, Fault>(response@),
                Err(SubmitError::ResponseSchema(error)) => response_of_text(reply@) == Err::<
                    ResponseView,
                    Fault,
                >(error.fault) && error.raw@ == reply@ && error.describes(),
                Err(SubmitError::Transport(_)) => false,
            },
        }
    }

    /// Makes a client from the text of a configuration file.
    pub fn new(config_text: String) -> (outcome: Result<Gptcli, ConfigError>)
        ensures
            match outcome {
                Ok(client) => config_of_text(config_text@) == Ok::<ConfigView, Fault>(client@),
                Err(error) => config_of_text(config_text@) == Err::<ConfigView, Fault>(error.fault)
                    && error.describes(),
            },
    {
        match load_config(config_text.as_str()) {
            Ok(config) => Ok(Gptcli { config }),
            Err(error) => Err(error),
        }
    }

    /// The request to send for a conversation.
    pub fn request(&self, messages: Vec<Message>) -> (request: Request)
        ensures
            self.sends(messages@, request),
    {
        let body = CompletionBody { model: self.config.model.clone(), messages };
        let mut authorization = String::from_str("Bearer ");
        authorization.append(self.config.access_key.as_str());
        Request { url: String::from_str(URL_COMPLETION), authorization, body: body.to_json() }
    }

    /// Ends a call with what the transport reports: the text of the reply,
    /// or the failure in the transport's words.
    pub fn receive(exchange: Result<String, String>) -> (outcome: Result<
        CompletionResponse,
        SubmitError,
    >)
        ensures
            Self::concludes(exchange, outcome),
    {
        match exchange {
            Err(failure) => Err(SubmitError::Transport(TransportError { detail: failure })),
            Ok(reply) => match parse_response(reply.as_str()) {
                Ok(response) => Ok(response),
                Err(error) => Err(SubmitError::ResponseSchema(error)),
            },
        }
    }

    /// One call: hands the request for the conversation to `transport`, once,
    /// and ends with what it reports. No second attempt is made.
    pub fn submit_messages<T: FnOnce(Request) -> Result<String, String>>(
        &self,
        messages: Vec<Message>,
        transport: T,
    ) -> (outcome: Result<CompletionResponse, SubmitError>)
        requires
            forall|request: Request|
                self.sends(messages@, request) ==> transport.requires((request,)),
        ensures
            exists|request: Request, exchange: Result<String, String>|
                self.sends(messages@, request) && transport.ensures((request,), exchange)
                    && Self::concludes(exchange, outcome),
    {
        let request = self.request(messages);
        let exchange = transport(request);
        Self::receive(exchange)
    }
}

} // verus!
