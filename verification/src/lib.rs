//! A client for a remote chat-completion service.
//!
//! The library turns a configuration text into a client, a conversation into
//! the one request that is sent for it, and the text that came back into a
//! strictly typed reply or a typed error. Moving bytes over the network is
//! left to the caller.

pub mod client;
pub mod completion;
pub mod config;
pub mod document;
pub mod json_text;
pub mod message;
pub mod reply;
pub mod request;
pub mod role;
pub mod schema;
pub mod toml_text;

pub use client::{Gptcli, SubmitError, TransportError, URL_COMPLETION};
pub use completion::{CompletionChoice, CompletionResponse, UsageStats};
pub use config::{load_config, read_config, Config, ConfigError};
pub use message::Message;
pub use reply::{decode_response, parse_response, ResponseSchemaError};
pub use request::{CompletionBody, Request};
pub use role::Role;
pub use schema::{Fault, Field};
