//! An interface for talking to the Rust playground.
//!
//! The library knows the playground's four operations: compile, execute,
//! format and lint. For each it has a request, built from source code and
//! options with documented defaults, and a response. It does not own a
//! transport. [`Client`] says what is to be sent for a request; whoever
//! sends it hands back a [`Reply`], and [`settle`] turns that into the
//! response or into the [`Failure`] that the call ends with.

pub mod cli;
pub mod client;
pub mod clippy;
pub mod compile;
pub mod error;
pub mod execute;
pub mod format;
pub mod json;
pub mod lint;
pub mod options;
pub mod text;
pub mod wire;

pub use client::{settle, Client, Outgoing, Reply};
pub use clippy::Request as ClippyRequest;
pub use compile::Request as CompileRequest;
pub use error::{CodecCause, Failure, MissingField};
pub use execute::Request as ExecuteRequest;
pub use format::Request as FormatRequest;
pub use lint::Request as LintRequest;
pub use options::{AsmFlavor, Backtrace, Channel, CrateType, Mode, OptLevel};
pub use wire::{Answer, Payload};
