//! Linting interfaces

use vstd::prelude::*;
use crate::json::{flag_at, text_at, Item};
use crate::wire::{
    required_flag, required_text, Answer, Datum, DatumView, Member, MemberView, Payload,
};

verus! {

/// Parameters for linting rustlang code
#[derive(Debug, Clone, PartialEq)]
pub struct Request {
    /// code to lint
    pub code: String,
}

/// A request, as it is known to contracts.
pub struct RequestView {
    /// code to lint
    pub code: Seq<char>,
}

impl View for Request {
    type V = RequestView;

    open spec fn view(&self) -> RequestView {
        RequestView {
            code: self.code@,
        }
    }
}

impl RequestView {
    /// The request for the given code with every option at its default.
    pub open spec fn defaults(code: Seq<char>) -> RequestView {
        RequestView {
            code,
        }
    }
}

impl Request {
    /// Returns a new `Request` instance configured with code to lint
    pub fn new(code: &str) -> (request: Self)
        ensures
            request@ == RequestView::defaults(code@),
    {
        Request {
            code: code.to_owned(),
        }
    }
}

impl Default for Request {
    fn default() -> (request: Self)
        ensures
            request@ == RequestView::defaults(Seq::empty()),
    {
        Request {
            code: String::new(),
        }
    }
}

impl Payload for Request {
    open spec fn wire(&self) -> Seq<MemberView> {
        seq![
            MemberView { name: "code"@, value: DatumView::Text(self.code@) },
        ]
    }

    fn members(&self) -> (list: Vec<Member<'_>>) {
        let mut list: Vec<Member<'_>> = Vec::new();
        list.push(Member { name: "code", value: Datum::Text(self.code.as_str()) });
        list
    }
}

/// Lint operation response
#[derive(Debug, Clone, PartialEq)]
pub struct Response {
    /// Indicates if request was successful or not
    pub success: bool,
    /// Stdout line output
    pub stdout: String,
    /// Stderr line output
    pub stderr: String,
}

/// A lint response, as it is known to contracts.
pub struct ResponseView {
    /// Indicates if request was successful or not
    pub success: bool,
    /// Stdout line output
    pub stdout: Seq<char>,
    /// Stderr line output
    pub stderr: Seq<char>,
}

impl View for Response {
    type V = ResponseView;

    open spec fn view(&self) -> ResponseView {
        ResponseView {
            success: self.success,
            stdout: self.stdout@,
            stderr: self.stderr@,
        }
    }
}

impl Answer for Response {
    open spec fn read(doc: Map<Seq<char>, Item>) -> Result<ResponseView, Seq<char>> {
        if flag_at(doc, "success"@) is None {
            Err("success"@)
        } else if text_at(doc, "stdout"@) is None {
            Err("stdout"@)
        } else if text_at(doc, "stderr"@) is None {
            Err("stderr"@)
        } else {
            Ok(
                ResponseView {
                    success: flag_at(doc, "success"@)->Some_0,
                    stdout: text_at(doc, "stdout"@)->Some_0,
                    stderr: text_at(doc, "stderr"@)->Some_0,
                },
            )
        }
    }

    fn decode(doc: &serde_json::Value) -> (read: Result<Self, &'static str>) {
        let success = required_flag(doc, "success")?;
        let stdout = required_text(doc, "stdout")?;
        let stderr = required_text(doc, "stderr")?;
        Ok(Response { success, stdout, stderr })
    }
}

} // verus!
