//! Execution interfaces

use vstd::prelude::*;
use crate::error::MissingField;
use crate::json::{flag_at, text_at, Item};
use crate::options::{Channel, CrateType, Mode};
use crate::wire::{
    required_flag, required_text, Answer, Datum, DatumView, Member, MemberView, Payload,
};

verus! {

/// Parameters for executing rustlang code
#[derive(Debug, Clone, PartialEq)]
pub struct Request {
    /// rust release channel
    pub channel: Channel,
    /// compilation mode
    pub mode: Mode,
    /// crate type
    pub crate_type: CrateType,
    /// contains tests
    pub tests: bool,
    /// whether a backtrace is asked for
    pub backtrace: bool,
    /// source code
    pub code: String,
}

/// A request, as it is known to contracts.
pub struct RequestView {
    /// rust release channel
    pub channel: Channel,
    /// compilation mode
    pub mode: Mode,
    /// crate type
    pub crate_type: CrateType,
    /// contains tests
    pub tests: bool,
    /// whether a backtrace is asked for
    pub backtrace: bool,
    /// source code
    pub code: Seq<char>,
}

impl View for Request {
    type V = RequestView;

    open spec fn view(&self) -> RequestView {
        RequestView {
            channel: self.channel,
            mode: self.mode,
            crate_type: self.crate_type,
            tests: self.tests,
            backtrace: self.backtrace,
            code: self.code@,
        }
    }
}

impl RequestView {
    /// The request for the given code with every option at its default.
    pub open spec fn defaults(code: Seq<char>) -> RequestView {
        RequestView {
            channel: Channel::Stable,
            mode: Mode::Debug,
            crate_type: CrateType::Binary,
            tests: false,
            backtrace: false,
            code,
        }
    }
}

impl Request {
    /// Returns a new `RequestBuilder` instance configured with code to execute
    pub fn builder(code: &str) -> (builder: RequestBuilder)
        ensures
            builder@ == Draft::seeded(code@),
    {
        RequestBuilder {
            channel: None,
            mode: None,
            crate_type: None,
            tests: None,
            backtrace: None,
            code: Some(code.to_owned()),
        }
    }
}

impl Default for Request {
    fn default() -> (request: Self)
        ensures
            request@ == RequestView::defaults(Seq::empty()),
    {
        Request {
            channel: Channel::Stable,
            mode: Mode::Debug,
            crate_type: CrateType::Binary,
            tests: false,
            backtrace: false,
            code: String::new(),
        }
    }
}

/// One thing that a builder can be told: the value of one field.
pub enum Setting {
    /// rust release channel
    Channel(Channel),
    /// compilation mode
    Mode(Mode),
    /// crate type
    CrateType(CrateType),
    /// contains tests
    Tests(bool),
    /// whether a backtrace is asked for
    Backtrace(bool),
    /// source code
    Code(Seq<char>),
}

impl Setting {
    /// The field that this setting speaks of, by its place in the request.
    pub open spec fn slot(self) -> nat {
        match self {
            Setting::Channel(_) => 0,
            Setting::Mode(_) => 1,
            Setting::CrateType(_) => 2,
            Setting::Tests(_) => 3,
            Setting::Backtrace(_) => 4,
            Setting::Code(_) => 5,
        }
    }
}

/// What a builder has been told so far, as it is known to contracts:
/// for each field its value, or nothing where the field was never set.
pub struct Draft {
    /// rust release channel
    pub channel: Option<Channel>,
    /// compilation mode
    pub mode: Option<Mode>,
    /// crate type
    pub crate_type: Option<CrateType>,
    /// contains tests
    pub tests: Option<bool>,
    /// whether a backtrace is asked for
    pub backtrace: Option<bool>,
    /// source code
    pub code: Option<Seq<char>>,
}

impl Draft {
    /// The draft in which no field is set.
    pub open spec fn blank() -> Draft {
        Draft {
            channel: None,
            mode: None,
            crate_type: None,
            tests: None,
            backtrace: None,
            code: None,
        }
    }

    /// The draft after one more setting: the field that the setting speaks
    /// of holds its value, whatever it held before, and no other field
    /// changes.
    pub open spec fn set(self, setting: Setting) -> Draft {
        match setting {
            Setting::Channel(value) => Draft { channel: Some(value), ..self },
            Setting::Mode(value) => Draft { mode: Some(value), ..self },
            Setting::CrateType(value) => Draft { crate_type: Some(value), ..self },
            Setting::Tests(value) => Draft { tests: Some(value), ..self },
            Setting::Backtrace(value) => Draft { backtrace: Some(value), ..self },
            Setting::Code(value) => Draft { code: Some(value), ..self },
        }
    }

    /// The draft after a sequence of settings, taken from first to last.
    pub open spec fn set_all(self, settings: Seq<Setting>) -> Draft
        decreases settings.len(),
    {
        if settings.len() == 0 {
            self
        } else {
            self.set_all(settings.drop_last()).set(settings.last())
        }
    }

    /// The draft of a builder that starts from the given code.
    pub open spec fn seeded(code: Seq<char>) -> Draft {
        Draft::blank().set(Setting::Code(code))
    }

    /// The request that a draft stands for: each field at the value it was
    /// set to, or at its default where it was never set. A draft without
    /// code stands for no request, and the answer names the field.
    pub open spec fn finish(self) -> Result<RequestView, Seq<char>> {
        match self.code {
            None => Err("code"@),
            Some(code) => Ok(
                RequestView {
                    channel: match self.channel {
                        Some(value) => value,
                        None => Channel::Stable,
                    },
                    mode: match self.mode {
                        Some(value) => value,
                        None => Mode::Debug,
                    },
                    crate_type: match self.crate_type {
                        Some(value) => value,
                        None => CrateType::Binary,
                    },
                    tests: match self.tests {
                        Some(value) => value,
                        None => false,
                    },
                    backtrace: match self.backtrace {
                        Some(value) => value,
                        None => false,
                    },
                    code,
                },
            ),
        }
    }
}

/// Builder for [`Request`]: it collects the code and the options that are
/// to differ from their defaults.
#[derive(Debug, Clone, PartialEq)]
pub struct RequestBuilder {
    channel: Option<Channel>,
    mode: Option<Mode>,
    crate_type: Option<CrateType>,
    tests: Option<bool>,
    backtrace: Option<bool>,
    code: Option<String>,
}

impl View for RequestBuilder {
    type V = Draft;

    closed spec fn view(&self) -> Draft {
        Draft {
            channel: self.channel,
            mode: self.mode,
            crate_type: self.crate_type,
            tests: self.tests,
            backtrace: self.backtrace,
            code: match self.code {
                Some(value) => Some(value@),
                None => None,
            },
        }
    }
}

impl Default for RequestBuilder {
    fn default() -> (builder: Self)
        ensures
            builder@ == Draft::blank(),
    {
        RequestBuilder {
            channel: None,
            mode: None,
            crate_type: None,
            tests: None,
            backtrace: None,
            code: None,
        }
    }
}

impl RequestBuilder {
    /// Sets the rust release channel.
    pub fn channel(&mut self, value: Channel) -> (builder: &mut Self)
        ensures
            builder@ == old(self)@.set(Setting::Channel(value)),
            *final(self) == *final(builder),
    {
        self.channel = Some(value);
        self
    }

    /// Sets the compilation mode.
    pub fn mode(&mut self, value: Mode) -> (builder: &mut Self)
        ensures
            builder@ == old(self)@.set(Setting::Mode(value)),
            *final(self) == *final(builder),
    {
        self.mode = Some(value);
        self
    }

    /// Sets the crate type.
    pub fn crate_type(&mut self, value: CrateType) -> (builder: &mut Self)
        ensures
            builder@ == old(self)@.set(Setting::CrateType(value)),
            *final(self) == *final(builder),
    {
        self.crate_type = Some(value);
        self
    }

    /// Sets whether the code contains tests.
    pub fn tests(&mut self, value: bool) -> (builder: &mut Self)
        ensures
            builder@ == old(self)@.set(Setting::Tests(value)),
            *final(self) == *final(builder),
    {
        self.tests = Some(value);
        self
    }

    /// Sets whether a backtrace is asked for.
    pub fn backtrace(&mut self, value: bool) -> (builder: &mut Self)
        ensures
            builder@ == old(self)@.set(Setting::Backtrace(value)),
            *final(self) == *final(builder),
    {
        self.backtrace = Some(value);
        self
    }

    /// Sets the source code.
    pub fn code(&mut self, value: &str) -> (builder: &mut Self)
        ensures
            builder@ == old(self)@.set(Setting::Code(value@)),
            *final(self) == *final(builder),
    {
        self.code = Some(value.to_owned());
        self
    }

    /// Builds the request: every field that was set at its value, every
    /// other at its default.
    ///
    /// Fails only where the code was never given, and then names it.
    pub fn build(&self) -> (built: Result<Request, MissingField>)
        ensures
            match self@.finish() {
                Ok(request) => built matches Ok(made) && made@ == request,
                Err(field) => built matches Err(missing) && missing.field@ == field,
            },
    {
        let code = match &self.code {
            Some(code) => code.clone(),
            None => {
                return Err(MissingField { field: "code" });
            },
        };
        Ok(
            Request {
                channel: match self.channel {
                    Some(value) => value,
                    None => Channel::Stable,
                },
                mode: match self.mode {
                    Some(value) => value,
                    None => Mode::Debug,
                },
                crate_type: match self.crate_type {
                    Some(value) => value,
                    None => CrateType::Binary,
                },
                tests: match self.tests {
                    Some(value) => value,
                    None => false,
                },
                backtrace: match self.backtrace {
                    Some(value) => value,
                    None => false,
                },
                code,
            },
        )
    }
}

/// A request built with nothing but its code has every option at its
/// documented default.
pub proof fn nothing_set_gives_defaults(code: Seq<char>)
    ensures
        Draft::seeded(code).finish() == Ok::<RequestView, Seq<char>>(RequestView::defaults(code)),
{
}

/// A draft without code stands for no request, whatever else is set, and
/// one with code always stands for one.
pub proof fn only_code_is_required(draft: Draft)
    ensures
        draft.finish() is Ok <==> draft.code is Some,
        draft.finish() matches Err(field) ==> field == "code"@,
{
}

/// Setting a field twice keeps the last value.
pub proof fn last_setting_wins(draft: Draft, first: Setting, last: Setting)
    requires
        first.slot() == last.slot(),
    ensures
        draft.set(first).set(last) == draft.set(last),
{
}

/// Settings of different fields can be made in either order.
pub proof fn settings_of_different_fields_commute(draft: Draft, a: Setting, b: Setting)
    requires
        a.slot() != b.slot(),
    ensures
        draft.set(a).set(b) == draft.set(b).set(a),
{
}

/// Making one sequence of settings and then another is making the two in
/// a row.
pub proof fn settings_in_a_row(draft: Draft, first: Seq<Setting>, next: Seq<Setting>)
    ensures
        draft.set_all(first).set_all(next) == draft.set_all(first + next),
    decreases next.len(),
{
    if next.len() > 0 {
        settings_in_a_row(draft, first, next.drop_last());
        assert((first + next).drop_last() == first + next.drop_last());
    }
}

/// The code can be set before or after settings that leave the code alone.
pub proof fn code_moves_past_other_settings(draft: Draft, code: Seq<char>, others: Seq<Setting>)
    requires
        forall|i: int| 0 <= i < others.len() ==> !(#[trigger] others[i] is Code),
    ensures
        draft.set(Setting::Code(code)).set_all(others) == draft.set_all(others).set(
            Setting::Code(code),
        ),
    decreases others.len(),
{
    if others.len() > 0 {
        let earlier = others.drop_last();
        code_moves_past_other_settings(draft, code, earlier);
        settings_of_different_fields_commute(
            draft.set_all(earlier),
            Setting::Code(code),
            others.last(),
        );
    }
}

/// The two ways of giving a builder its code agree.
///
/// One builder starts from the code and is then told `before` and `after`.
/// The other starts blank, is told `before`, is given the same code by its
/// setter, and is then told `after`. Where `before` leaves the code alone,
/// the two end in the same draft and so build the same request, or fail
/// alike.
pub proof fn code_first_and_code_later_agree(
    code: Seq<char>,
    before: Seq<Setting>,
    after: Seq<Setting>,
)
    requires
        forall|i: int| 0 <= i < before.len() ==> !(#[trigger] before[i] is Code),
    ensures
        Draft::seeded(code).set_all(before + after) == Draft::blank().set_all(before).set(
            Setting::Code(code),
        ).set_all(after),
        Draft::seeded(code).set_all(before + after).finish() == Draft::blank().set_all(before).set(
            Setting::Code(code),
        ).set_all(after).finish(),
{
    code_moves_past_other_settings(Draft::blank(), code, before);
    settings_in_a_row(Draft::seeded(code), before, after);
}

impl Payload for Request {
    open spec fn wire(&self) -> Seq<MemberView> {
        seq![
            MemberView { name: "channel"@, value: DatumView::Text(self.channel.canonical()) },
            MemberView { name: "mode"@, value: DatumView::Text(self.mode.canonical()) },
            MemberView { name: "crateType"@, value: DatumView::Text(self.crate_type.canonical()) },
            MemberView { name: "tests"@, value: DatumView::Flag(self.tests) },
            MemberView { name: "backtrace"@, value: DatumView::Flag(self.backtrace) },
            MemberView { name: "code"@, value: DatumView::Text(self.code@) },
        ]
    }

    fn members(&self) -> (list: Vec<Member<'_>>) {
        let mut list: Vec<Member<'_>> = Vec::new();
        list.push(Member { name: "channel", value: Datum::Text(self.channel.as_str()) });
        list.push(Member { name: "mode", value: Datum::Text(self.mode.as_str()) });
        list.push(Member { name: "crateType", value: Datum::Text(self.crate_type.as_str()) });
        list.push(Member { name: "tests", value: Datum::Flag(self.tests) });
        list.push(Member { name: "backtrace", value: Datum::Flag(self.backtrace) });
        list.push(Member { name: "code", value: Datum::Text(self.code.as_str()) });
        list
    }
}

/// Execute operation response
#[derive(Debug, Clone, PartialEq)]
pub struct Response {
    /// Indicates if request was successful or not
    pub success: bool,
    /// Stdout line output
    pub stdout: String,
    /// Stderr line output
    pub stderr: String,
}

/// An execute response, as it is known to contracts.
pub struct ResponseView {
    /// Indicates if request was successful or not
    pub success: bool,
    /// Stdout line output
    pub stdout: Seq<char>,
    /// Stderr line output
    pub stderr: Seq<char>,
}

impl View for Response {
    type V = ResponseView;

    open spec fn view(&self) -> ResponseView {
        ResponseView {
            success: self.success,
            stdout: self.stdout@,
            stderr: self.stderr@,
        }
    }
}

impl Answer for Response {
    open spec fn read(doc: Map<Seq<char>, Item>) -> Result<ResponseView, Seq<char>> {
        if flag_at(doc, "success"@) is None {
            Err("success"@)
        } else if text_at(doc, "stdout"@) is None {
            Err("stdout"@)
        } else if text_at(doc, "stderr"@) is None {
            Err("stderr"@)
        } else {
            Ok(
                ResponseView {
                    success: flag_at(doc, "success"@)->Some_0,
                    stdout: text_at(doc, "stdout"@)->Some_0,
                    stderr: text_at(doc, "stderr"@)->Some_0,
                },
            )
        }
    }

    fn decode(doc: &serde_json::Value) -> (read: Result<Self, &'static str>) {
        let success = required_flag(doc, "success")?;
        let stdout = required_text(doc, "stdout")?;
        let stderr = required_text(doc, "stderr")?;
        Ok(Response { success, stdout, stderr })
    }
}

} // verus!
