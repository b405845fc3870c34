//! The exchange with the playground, without the transport.
//!
//! A call has two halves. `Client::request` says what goes out: where to,
//! under which headers, and with which body. Whoever owns the transport
//! sends it and hands back a `Reply`; `settle` then says how the call ends.

use vstd::prelude::*;
use vstd::string::StringExecFns;
use crate::error::{CodecCause, Failure, FailureModel};
use crate::json::{members, parse, parsed, text_at, Item};
use crate::wire::{encode, object_text, required_text, Answer, Payload};

verus! {

/// What is sent to the playground for one call.
#[derive(Debug, Clone, PartialEq)]
pub struct Outgoing {
    /// The HTTP method.
    pub method: &'static str,
    /// The address of the endpoint.
    pub url: String,
    /// The value of the `Content-Type` header.
    pub content_type: &'static str,
    /// The body: the request as JSON text.
    pub body: Vec<u8>,
}

/// How an exchange ended on the transport's side.
#[derive(Debug)]
pub enum Reply {
    /// No complete reply came back: the exchange failed while connecting,
    /// while waiting for the status, or while the body was read.
    Failed(hyper::Error),
    /// A reply came back in full.
    Arrived {
        /// The HTTP status of the reply.
        status: u16,
        /// The whole body of the reply.
        body: Vec<u8>,
    },
}

/// What the playground sends in place of a reply when it refuses a call.
#[derive(Debug, Clone, PartialEq)]
pub struct ClientError {
    /// The playground's own words.
    pub error: String,
}

/// A refusal, as it is known to contracts.
pub struct ClientErrorView {
    /// The playground's own words.
    pub error: Seq<char>,
}

impl View for ClientError {
    type V = ClientErrorView;

    open spec fn view(&self) -> ClientErrorView {
        ClientErrorView { error: self.error@ }
    }
}

impl Answer for ClientError {
    open spec fn read(doc: Map<Seq<char>, Item>) -> Result<ClientErrorView, Seq<char>> {
        match text_at(doc, "error"@) {
            Some(error) => Ok(ClientErrorView { error }),
            None => Err("error"@),
        }
    }

    fn decode(doc: &serde_json::Value) -> (read: Result<Self, &'static str>) {
        let error = required_text(doc, "error")?;
        Ok(ClientError { error })
    }
}

/// Whether an HTTP status lies in the success range.
pub open spec fn in_success_range(status: u16) -> bool {
    200 <= status < 300
}

/// Tells whether an HTTP status lies in the success range.
pub fn is_success(status: u16) -> (success: bool)
    ensures
        success == in_success_range(status),
{
    200 <= status && status < 300
}

/// How a call ends, given the status of the reply and the members of its
/// body, where the body is JSON text.
///
/// A body that is not JSON text is a codec failure whatever the status.
/// Under a success status the members are read as the reply; under any
/// other status they are read as the playground's refusal, which becomes a
/// fault that carries the status and the playground's words. Members that
/// cannot be read as what the status calls for are a codec failure.
pub open spec fn outcome<O: Answer>(status: u16, doc: Option<Map<Seq<char>, Item>>) -> Result<
    O::V,
    FailureModel,
> {
    match doc {
        None => Err(FailureModel::Syntax),
        Some(found) => if in_success_range(status) {
            match O::read(found) {
                Ok(reply) => Ok(reply),
                Err(field) => Err(FailureModel::Shape(field)),
            }
        } else {
            match ClientError::read(found) {
                Ok(refusal) => Err(FailureModel::Fault { status, message: refusal.error }),
                Err(field) => Err(FailureModel::Shape(field)),
            }
        },
    }
}

/// A call ends with a reply only under a success status, and with a fault
/// only under another status; the fault then carries that status and the
/// words that the body holds under `error`. Reading a reply never ends in a
/// transport failure.
pub proof fn status_decides_how_a_body_is_read<O: Answer>(
    status: u16,
    doc: Option<Map<Seq<char>, Item>>,
)
    ensures
        outcome::<O>(status, doc) is Ok ==> in_success_range(status) && doc is Some,
        outcome::<O>(status, doc) matches Err(FailureModel::Fault { status: kept, message })
            ==> kept == status && !in_success_range(status) && doc is Some && text_at(
            doc->Some_0,
            "error"@,
        ) == Some(message),
        !(outcome::<O>(status, doc) matches Err(FailureModel::Transport)),
{
}

/// The end of a call, as it is known to contracts.
pub open spec fn abstracted<O: View>(end: Result<O, Failure>) -> Result<O::V, FailureModel> {
    match end {
        Ok(reply) => Ok(reply@),
        Err(failure) => Err(failure@),
    }
}

/// Ends a call whose reply arrived, from the status of the reply and what
/// the parser made of its body.
pub fn interpret<O: Answer>(
    status: u16,
    doc: Result<serde_json::Value, serde_json::Error>,
) -> (end: Result<O, Failure>)
    ensures
        match doc {
            Ok(value) => abstracted(end) == outcome::<O>(status, Some(members(value))),
            Err(cause) => end == Err::<O, Failure>(Failure::Codec(CodecCause::Syntax(cause))),
        },
{
    let value = match doc {
        Ok(value) => value,
        Err(cause) => {
            return Err(Failure::Codec(CodecCause::Syntax(cause)));
        },
    };
    if is_success(status) {
        match O::decode(&value) {
            Ok(reply) => Ok(reply),
            Err(field) => Err(Failure::Codec(CodecCause::Shape(field))),
        }
    } else {
        match ClientError::decode(&value) {
            Ok(refusal) => Err(Failure::Fault { status, message: refusal.error }),
            Err(field) => Err(Failure::Codec(CodecCause::Shape(field))),
        }
    }
}

/// Ends a call, from what the transport hands back.
///
/// A failed exchange ends the call with its cause and nothing is read. A
/// reply that arrived is parsed and read as `outcome` says.
pub fn settle<O: Answer>(reply: Reply) -> (end: Result<O, Failure>)
    ensures
        match reply {
            Reply::Failed(cause) => end == Err::<O, Failure>(Failure::Http(cause)),
            Reply::Arrived { status, body } => abstracted(end) == outcome::<O>(
                status,
                parsed(body@),
            ),
        },
{
    match reply {
        Reply::Failed(cause) => Err(Failure::Http(cause)),
        Reply::Arrived { status, body } => interpret::<O>(status, parse(body.as_slice())),
    }
}

/// What is sent for one call, as it is known to contracts.
pub struct OutgoingView {
    /// The HTTP method.
    pub method: Seq<char>,
    /// The address of the endpoint.
    pub url: Seq<char>,
    /// The value of the `Content-Type` header.
    pub content_type: Seq<char>,
    /// The body: the request as JSON text.
    pub body: Seq<u8>,
}

impl View for Outgoing {
    type V = OutgoingView;

    open spec fn view(&self) -> OutgoingView {
        OutgoingView {
            method: self.method@,
            url: self.url@,
            content_type: self.content_type@,
            body: self.body@,
        }
    }
}

/// What is sent for a request to the endpoint at `path` under the address
/// `host`: a POST to that endpoint with the request as JSON text for its
/// body and the content type that goes with it. Nothing is sent where the
/// request has no JSON text.
pub open spec fn dispatch<I: Payload>(host: Seq<char>, path: Seq<char>, input: &I) -> Option<
    OutgoingView,
> {
    match object_text(input.wire()) {
        Some(text) => Some(
            OutgoingView {
                method: "POST"@,
                url: host + path,
                content_type: "application/json"@,
                body: text,
            },
        ),
        None => None,
    }
}

/// Whether the first half of a call came out as it should: with what is to
/// be sent, or, where nothing is to be sent, with a codec failure.
pub open spec fn prepared(call: Result<Outgoing, Failure>, due: Option<OutgoingView>) -> bool {
    match due {
        Some(outgoing) => call matches Ok(made) && made@ == outgoing,
        None => call matches Err(Failure::Codec(CodecCause::Syntax(_))),
    }
}

/// Rust playground client: the address of the service.
#[derive(Debug, Clone, PartialEq)]
pub struct Client {
    host: String,
}

impl Client {
    /// The address of the service that this client talks to.
    pub closed spec fn address(&self) -> Seq<char> {
        self.host@
    }

    /// Creates a client for the public playground.
    ///
    /// For another address use `Client::custom` instead.
    pub fn new() -> (client: Self)
        ensures
            client.address() == "https://play.rust-lang.org"@,
    {
        Client::custom("https://play.rust-lang.org")
    }

    /// Creates a client for the playground at the given address.
    pub fn custom(host: &str) -> (client: Self)
        ensures
            client.address() == host@,
    {
        Client { host: host.to_owned() }
    }

    /// The address of the service that this client talks to.
    pub fn host(&self) -> (host: &str)
        ensures
            host@ == self.address(),
    {
        self.host.as_str()
    }

    /// Says what to send for a request to the endpoint at `path`.
    ///
    /// The call fails, as a codec failure, only where the request cannot be
    /// written as JSON text.
    pub fn request<I: Payload>(&self, path: &str, input: &I) -> (call: Result<Outgoing, Failure>)
        ensures
            prepared(call, dispatch(self.address(), path@, input)),
    {
        let list = input.members();
        match encode(&list) {
            Ok(body) => Ok(
                Outgoing {
                    method: "POST",
                    url: self.host.clone().concat(path),
                    content_type: "application/json",
                    body,
                },
            ),
            Err(cause) => Err(Failure::Codec(CodecCause::Syntax(cause))),
        }
    }

    /// Executes rustlang code
    pub fn execute(&self, req: crate::execute::Request) -> (call: Result<Outgoing, Failure>)
        ensures
            prepared(call, dispatch(self.address(), "/execute"@, &req)),
    {
        self.request("/execute", &req)
    }

    /// Compiles rustlang code
    pub fn compile(&self, req: crate::compile::Request) -> (call: Result<Outgoing, Failure>)
        ensures
            prepared(call, dispatch(self.address(), "/compile"@, &req)),
    {
        self.request("/compile", &req)
    }

    /// Formats rustlang code
    pub fn format(&self, req: crate::format::Request) -> (call: Result<Outgoing, Failure>)
        ensures
            prepared(call, dispatch(self.address(), "/format"@, &req)),
    {
        self.request("/format", &req)
    }

    /// Lint rustlang code
    pub fn lint(&self, req: crate::lint::Request) -> (call: Result<Outgoing, Failure>)
        ensures
            prepared(call, dispatch(self.address(), "/clippy"@, &req)),
    {
        self.request("/clippy", &req)
    }
}

} // verus!
