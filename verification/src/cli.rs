//! What a command line front end decides: where the code comes from, which
//! request a set of flags makes, and what of a response goes to which
//! stream. Reading and printing are left to the front end.

use vstd::prelude::*;
use crate::compile::Target;
use crate::options::{Channel, CrateType};

verus! {

/// Where the code of a request comes from.
#[derive(Debug, Clone, PartialEq)]
pub enum Source {
    /// The argument is the code.
    Literal(String),
    /// The code is the next line of standard input.
    StandardInput,
}

/// Tells where the code comes from: from standard input where the argument
/// is the single character `-`, from the argument itself otherwise.
pub fn src(code: String) -> (source: Source)
    ensures
        match source {
            Source::Literal(text) => code@ != "-"@ && text == code,
            Source::StandardInput => code@ == "-"@,
        },
{
    if code.as_str().eq("-") {
        Source::StandardInput
    } else {
        Source::Literal(code)
    }
}

/// The request that executes `code` with the given flags: each option at
/// the value of its flag, or at its default where the flag is absent.
pub fn execute_request(
    code: &str,
    channel: Option<Channel>,
    crate_type: Option<CrateType>,
) -> (request: crate::execute::Request)
    ensures
        request@ == (crate::execute::RequestView {
            channel: match channel {
                Some(value) => value,
                None => Channel::Stable,
            },
            crate_type: match crate_type {
                Some(value) => value,
                None => CrateType::Binary,
            },
            ..crate::execute::RequestView::defaults(code@)
        }),
{
    let mut options = crate::execute::Request::builder(code);
    match channel {
        Some(value) => {
            options.channel(value);
        },
        None => {},
    }
    match crate_type {
        Some(value) => {
            options.crate_type(value);
        },
        None => {},
    }
    options.build().unwrap()
}

/// The request that compiles `code` with the given flags: each option at
/// the value of its flag, or at its default where the flag is absent.
pub fn compile_request(
    code: &str,
    target: Option<Target>,
    channel: Option<Channel>,
    crate_type: Option<CrateType>,
) -> (request: crate::compile::Request)
    ensures
        request@ == (crate::compile::RequestView {
            target: match target {
                Some(value) => value,
                None => Target::Asm,
            },
            channel: match channel {
                Some(value) => value,
                None => Channel::Stable,
            },
            crate_type: match crate_type {
                Some(value) => value,
                None => CrateType::Binary,
            },
            ..crate::compile::RequestView::defaults(code@)
        }),
{
    let mut options = crate::compile::Request::builder(code);
    match target {
        Some(value) => {
            options.target(value);
        },
        None => {},
    }
    match channel {
        Some(value) => {
            options.channel(value);
        },
        None => {},
    }
    match crate_type {
        Some(value) => {
            options.crate_type(value);
        },
        None => {},
    }
    options.build().unwrap()
}

/// What a front end prints for a response: texts for standard output and
/// texts for standard error, each in the order in which they are printed.
#[derive(Debug, Clone, PartialEq)]
pub struct Transcript {
    /// The texts that go to standard output.
    pub out: Vec<String>,
    /// The texts that go to standard error.
    pub err: Vec<String>,
}

/// The texts of a list, each as contracts know it.
pub open spec fn texts(list: Seq<String>) -> Seq<Seq<char>> {
    Seq::new(list.len(), |i: int| list[i]@)
}

/// What is printed after an execution: its output, and its errors apart.
pub fn executed(response: crate::execute::Response) -> (transcript: Transcript)
    ensures
        texts(transcript.out@) == seq![response.stdout@],
        texts(transcript.err@) == seq![response.stderr@],
{
    let mut out: Vec<String> = Vec::new();
    out.push(response.stdout);
    let mut err: Vec<String> = Vec::new();
    err.push(response.stderr);
    Transcript { out, err }
}

/// What is printed after a compilation: the compiled code, then the
/// compiler's output, and its errors apart.
pub fn compiled(response: crate::compile::Response) -> (transcript: Transcript)
    ensures
        texts(transcript.out@) == seq![response.code@, response.stdout@],
        texts(transcript.err@) == seq![response.stderr@],
{
    let mut out: Vec<String> = Vec::new();
    out.push(response.code);
    out.push(response.stdout);
    let mut err: Vec<String> = Vec::new();
    err.push(response.stderr);
    Transcript { out, err }
}

/// What is printed after formatting: the formatted code, then the
/// formatter's output, and its errors apart.
pub fn formatted(response: crate::format::Response) -> (transcript: Transcript)
    ensures
        texts(transcript.out@) == seq![response.code@, response.stdout@],
        texts(transcript.err@) == seq![response.stderr@],
{
    let mut out: Vec<String> = Vec::new();
    out.push(response.code);
    out.push(response.stdout);
    let mut err: Vec<String> = Vec::new();
    err.push(response.stderr);
    Transcript { out, err }
}

} // verus!
