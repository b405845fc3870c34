//! What can go wrong between a request and its reply.

use vstd::prelude::*;

verus! {

/// `hyper::Error`, the cause of a failed exchange. Its inside is not
/// visible here: the library carries it from the transport to the caller.
#[verifier::external_type_specification]
#[verifier::external_body]
pub struct ExTransportError(hyper::Error);

/// Why a body could not be written or read.
#[derive(Debug)]
pub enum CodecCause {
    /// The text is not JSON, or a string could not be written as JSON.
    Syntax(serde_json::Error),
    /// The text is JSON, but the named member is missing from it or holds
    /// the wrong kind of value.
    Shape(&'static str),
}

/// The ways in which a call to the playground fails.
#[derive(Debug)]
pub enum Failure {
    /// A body could not be written or read.
    Codec(CodecCause),
    /// The exchange itself failed: no connection, or no complete reply.
    Http(hyper::Error),
    /// The playground answered with a status outside the success range and
    /// said why.
    Fault {
        /// The HTTP status of the reply.
        status: u16,
        /// The playground's own words.
        message: String,
    },
}

/// A failure, as it is known to contracts.
pub enum FailureModel {
    /// A body that is not JSON.
    Syntax,
    /// A body without the named member, or with the wrong kind of value
    /// under it.
    Shape(Seq<char>),
    /// A failed exchange.
    Transport,
    /// A reply with a status outside the success range.
    Fault {
        /// The HTTP status of the reply.
        status: u16,
        /// The playground's own words.
        message: Seq<char>,
    },
}

impl View for Failure {
    type V = FailureModel;

    open spec fn view(&self) -> FailureModel {
        match *self {
            Failure::Codec(CodecCause::Syntax(_)) => FailureModel::Syntax,
            Failure::Codec(CodecCause::Shape(field)) => FailureModel::Shape(field@),
            Failure::Http(_) => FailureModel::Transport,
            Failure::Fault { status, message } => FailureModel::Fault { status, message: message@ },
        }
    }
}

impl From<hyper::Error> for Failure {
    fn from(cause: hyper::Error) -> (failure: Failure) {
        Failure::Http(cause)
    }
}

impl vstd::std_specs::convert::FromSpecImpl<hyper::Error> for Failure {
    open spec fn obeys_from_spec() -> bool {
        true
    }

    open spec fn from_spec(cause: hyper::Error) -> Failure {
        Failure::Http(cause)
    }
}

/// A required field that a builder was never given.
#[derive(Clone, Copy, Debug, PartialEq, Eq)]
pub struct MissingField {
    /// The name of the field.
    pub field: &'static str,
}

} // verus!
