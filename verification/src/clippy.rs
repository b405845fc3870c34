//! Clippy interfaces

use vstd::prelude::*;
use crate::error::MissingField;
use crate::json::{flag_at, text_at, Item};
use crate::wire::{
    required_flag, required_text, Answer, Datum, DatumView, Member, MemberView, Payload,
};

verus! {

/// A clippy linting request
#[derive(Debug, Clone, PartialEq)]
pub struct Request {
    /// code to lint
    pub code: String,
}

/// A request, as it is known to contracts.
pub struct RequestView {
    /// code to lint
    pub code: Seq<char>,
}

impl View for Request {
    type V = RequestView;

    open spec fn view(&self) -> RequestView {
        RequestView {
            code: self.code@,
        }
    }
}

impl RequestView {
    /// The request for the given code with every option at its default.
    pub open spec fn defaults(code: Seq<char>) -> RequestView {
        RequestView {
            code,
        }
    }
}

impl Request {
    /// Returns a new `RequestBuilder` instance configured with code to lint
    pub fn builder(code: &str) -> (builder: RequestBuilder)
        ensures
            builder@ == Draft::seeded(code@),
    {
        RequestBuilder {
            code: Some(code.to_owned()),
        }
    }
}

impl Default for Request {
    fn default() -> (request: Self)
        ensures
            request@ == RequestView::defaults(Seq::empty()),
    {
        Request {
            code: String::new(),
        }
    }
}

/// One thing that a builder can be told: the value of one field.
pub enum Setting {
    /// code to lint
    Code(Seq<char>),
}

/// What a builder has been told so far, as it is known to contracts:
/// for each field its value, or nothing where the field was never set.
pub struct Draft {
    /// code to lint
    pub code: Option<Seq<char>>,
}

impl Draft {
    /// The draft in which no field is set.
    pub open spec fn blank() -> Draft {
        Draft {
            code: None,
        }
    }

    /// The draft after one more setting: the field that the setting speaks
    /// of holds its value, whatever it held before, and no other field
    /// changes.
    pub open spec fn set(self, setting: Setting) -> Draft {
        match setting {
            Setting::Code(value) => Draft { code: Some(value), ..self },
        }
    }

    /// The draft after a sequence of settings, taken from first to last.
    pub open spec fn set_all(self, settings: Seq<Setting>) -> Draft
        decreases settings.len(),
    {
        if settings.len() == 0 {
            self
        } else {
            self.set_all(settings.drop_last()).set(settings.last())
        }
    }

    /// The draft of a builder that starts from the given code.
    pub open spec fn seeded(code: Seq<char>) -> Draft {
        Draft::blank().set(Setting::Code(code))
    }

    /// The request that a draft stands for: each field at the value it was
    /// set to, or at its default where it was never set. A draft without
    /// code stands for no request, and the answer names the field.
    pub open spec fn finish(self) -> Result<RequestView, Seq<char>> {
        match self.code {
            None => Err("code"@),
            Some(code) => Ok(
                RequestView {
                    code,
                },
            ),
        }
    }
}

/// Builder for [`Request`]: it collects the code and the options that are
/// to differ from their defaults.
#[derive(Debug, Clone, PartialEq)]
pub struct RequestBuilder {
    code: Option<String>,
}

impl View for RequestBuilder {
    type V = Draft;

    closed spec fn view(&self) -> Draft {
        Draft {
            code: match self.code {
                Some(value) => Some(value@),
                None => None,
            },
        }
    }
}

impl Default for RequestBuilder {
    fn default() -> (builder: Self)
        ensures
            builder@ == Draft::blank(),
    {
        RequestBuilder {
            code: None,
        }
    }
}

impl RequestBuilder {
    /// Sets the code to lint.
    pub fn code(&mut self, value: &str) -> (builder: &mut Self)
        ensures
            builder@ == old(self)@.set(Setting::Code(value@)),
            *final(self) == *final(builder),
    {
        self.code = Some(value.to_owned());
        self
    }

    /// Builds the request: every field that was set at its value, every
    /// other at its default.
    ///
    /// Fails only where the code was never given, and then names it.
    pub fn build(&self) -> (built: Result<Request, MissingField>)
        ensures
            match self@.finish() {
                Ok(request) => built matches Ok(made) && made@ == request,
                Err(field) => built matches Err(missing) && missing.field@ == field,
            },
    {
        let code = match &self.code {
            Some(code) => code.clone(),
            None => {
                return Err(MissingField { field: "code" });
            },
        };
        Ok(
            Request {
                code,
            },
        )
    }
}

/// A request built with nothing but its code holds that code.
pub proof fn nothing_set_gives_defaults(code: Seq<char>)
    ensures
        Draft::seeded(code).finish() == Ok::<RequestView, Seq<char>>(RequestView::defaults(code)),
{
}

/// A draft without code stands for no request, and one with code always
/// stands for one.
pub proof fn only_code_is_required(draft: Draft)
    ensures
        draft.finish() is Ok <==> draft.code is Some,
        draft.finish() matches Err(field) ==> field == "code"@,
{
}

/// Setting the code twice keeps the last value.
pub proof fn last_setting_wins(draft: Draft, first: Setting, last: Setting)
    ensures
        draft.set(first).set(last) == draft.set(last),
{
}

/// The two ways of giving a builder its code agree.
///
/// One builder starts from the code, the other starts blank and is given
/// the same code by its setter. Told the same things afterwards, the two
/// end in the same draft and so build the same request.
pub proof fn code_first_and_code_later_agree(code: Seq<char>, after: Seq<Setting>)
    ensures
        Draft::seeded(code).set_all(after) == Draft::blank().set(Setting::Code(code)).set_all(
            after,
        ),
        Draft::seeded(code).set_all(after).finish() == Draft::blank().set(
            Setting::Code(code),
        ).set_all(after).finish(),
{
}

impl Payload for Request {
    open spec fn wire(&self) -> Seq<MemberView> {
        seq![
            MemberView { name: "code"@, value: DatumView::Text(self.code@) },
        ]
    }

    fn members(&self) -> (list: Vec<Member<'_>>) {
        let mut list: Vec<Member<'_>> = Vec::new();
        list.push(Member { name: "code", value: Datum::Text(self.code.as_str()) });
        list
    }
}

/// A clippy linting response
#[derive(Debug, Clone, PartialEq)]
pub struct Response {
    /// Indicates if request was successful or not
    pub success: bool,
    /// Stdout line output
    pub stdout: String,
    /// Stderr line output
    pub stderr: String,
}

/// A clippy response, as it is known to contracts.
pub struct ResponseView {
    /// Indicates if request was successful or not
    pub success: bool,
    /// Stdout line output
    pub stdout: Seq<char>,
    /// Stderr line output
    pub stderr: Seq<char>,
}

impl View for Response {
    type V = ResponseView;

    open spec fn view(&self) -> ResponseView {
        ResponseView {
            success: self.success,
            stdout: self.stdout@,
            stderr: self.stderr@,
        }
    }
}

impl Answer for Response {
    open spec fn read(doc: Map<Seq<char>, Item>) -> Result<ResponseView, Seq<char>> {
        if flag_at(doc, "success"@) is None {
            Err("success"@)
        } else if text_at(doc, "stdout"@) is None {
            Err("stdout"@)
        } else if text_at(doc, "stderr"@) is None {
            Err("stderr"@)
        } else {
            Ok(
                ResponseView {
                    success: flag_at(doc, "success"@)->Some_0,
                    stdout: text_at(doc, "stdout"@)->Some_0,
                    stderr: text_at(doc, "stderr"@)->Some_0,
                },
            )
        }
    }

    fn decode(doc: &serde_json::Value) -> (read: Result<Self, &'static str>) {
        let success = required_flag(doc, "success")?;
        let stdout = required_text(doc, "stdout")?;
        let stderr = required_text(doc, "stderr")?;
        Ok(Response { success, stdout, stderr })
    }
}

} // verus!
