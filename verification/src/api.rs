//! The dispatcher: the request that delivers a message to the webhook, and
//! what the caller is told once the transport has answered.

use crate::schema::{BasicMessage, BasicMessageView, Message};
use vstd::prelude::*;

verus! {

/// The content type under which every payload is posted.
pub open spec fn json_content_type() -> Seq<char> {
    "application/json"@
}

/// The HTTP method of a request.
#[derive(Clone, Copy, Debug, PartialEq, Eq, Structural)]
pub enum Method {
    Post,
}

/// One HTTP request, ready to be handed to a transport.
#[derive(Debug, PartialEq, Eq)]
pub struct Request {
    pub method: Method,
    pub url: String,
    pub content_type: String,
    pub body: String,
}

impl Request {
    /// Whether this is the POST of the given JSON text to the given address.
    pub open spec fn posts(self, url: Seq<char>, body: Seq<char>) -> bool {
        &&& self.method == Method::Post
        &&& self.url@ == url
        &&& self.content_type@ == json_content_type()
        &&& self.body@ == body
    }
}

/// What a transport reports of one request.
#[derive(Debug, PartialEq, Eq)]
pub enum Delivery {
    /// The request was transmitted in full and a response came back, with
    /// the given status.
    Responded(u16),
    /// The request could not be established or completed, for the given
    /// reason.
    Failed(String),
}

/// Why a send did not succeed.
#[derive(Debug, PartialEq, Eq)]
pub enum SendError {
    /// The transport could not establish or complete the request.
    Transport(String),
}

/// The sender of messages to one webhook.
#[derive(Debug, PartialEq, Eq)]
pub struct Teams {
    webhook_url: String,
}

impl Teams {
    /// The address of the webhook.
    pub closed spec fn url(self) -> Seq<char> {
        self.webhook_url@
    }

    /// The sender to the webhook at the given address.
    pub fn new(webhook_url: &str) -> (teams: Teams)
        ensures
            teams.url() == webhook_url@,
    {
        Teams { webhook_url: webhook_url.to_owned() }
    }

    /// The address of the webhook.
    pub fn webhook_url(&self) -> (url: &str)
        ensures
            url@ == self.url(),
    {
        self.webhook_url.as_str()
    }

    /// The request that delivers the given JSON text.
    fn post(&self, body: String) -> (request: Request)
        ensures
            request.posts(self.url(), body@),
    {
        Request {
            method: Method::Post,
            url: self.webhook_url.clone(),
            content_type: "application/json".to_owned(),
            body,
        }
    }

    /// The request that delivers the given plain text: one POST to the
    /// webhook of the JSON text of the plain-text message.
    pub fn send_text(&self, text: &str) -> (request: Request)
        ensures
            request.posts(self.url(), (BasicMessageView { text: text@ }).text()),
    {
        let basic_message = BasicMessage::text(text);
        self.post(basic_message.to_text())
    }

    /// The request that delivers the given card message: one POST to the
    /// webhook of the message's JSON text.
    pub fn send_message(&self, message: &Message) -> (request: Request)
        ensures
            request.posts(self.url(), message@.text()),
    {
        self.post(message.to_text())
    }

    /// What the caller is told of a send: success once a response has come
    /// back, whatever its status, and the transport's failure otherwise.
    pub fn outcome(delivery: Delivery) -> (result: Result<(), SendError>)
        ensures
            result == match delivery {
                Delivery::Responded(_) => Ok::<(), SendError>(()),
                Delivery::Failed(reason) => Err(SendError::Transport(reason)),
            },
    {
        match delivery {
            Delivery::Responded(_) => Ok(()),
            Delivery::Failed(reason) => Err(SendError::Transport(reason)),
        }
    }
}

} // verus!
