//! Compilation interfaces

use vstd::prelude::*;
use crate::error::MissingField;
use crate::json::{flag_at, text_at, Item};
use crate::options::{AsmFlavor, Channel, CrateType, Mode};
use crate::wire::{
    required_flag, required_text, Answer, Datum, DatumView, Member, MemberView, Payload,
};

verus! {

/// Compiler output targets
///
/// The `Default` is `Asm`
#[derive(Clone, Copy, Debug, PartialEq, Eq, Structural)]
pub enum Target {
    /// Assembly
    Asm,
    /// LLVM intermediate representation
    Llvm,
    /// Rust mid-level intermediate representation
    Mir,
    /// WebAssembly. Only available for the Nightly channel
    Wasm,
}

impl Target {
    /// The string that stands for this value on the wire.
    pub open spec fn canonical(self) -> Seq<char> {
        match self {
            Target::Asm => "asm"@,
            Target::Llvm => "llvm-ir"@,
            Target::Mir => "mir"@,
            Target::Wasm => "wasm"@,
        }
    }

    /// The value that a string stands for, if any.
    pub open spec fn parse(text: Seq<char>) -> Option<Target> {
        if text == "asm"@ {
            Some(Target::Asm)
        } else if text == "llvm-ir"@ {
            Some(Target::Llvm)
        } else if text == "mir"@ {
            Some(Target::Mir)
        } else if text == "wasm"@ {
            Some(Target::Wasm)
        } else {
            None
        }
    }

    /// The canonical string of this value.
    pub fn as_str(self) -> (text: &'static str)
        ensures
            text@ == self.canonical(),
    {
        match self {
            Target::Asm => "asm",
            Target::Llvm => "llvm-ir",
            Target::Mir => "mir",
            Target::Wasm => "wasm",
        }
    }

    /// The canonical strings of all values, in declaration order.
    pub fn variants() -> (names: &'static [&'static str])
        ensures
            names@.len() == 4,
            names@[0]@ == Target::Asm.canonical(),
            names@[1]@ == Target::Llvm.canonical(),
            names@[2]@ == Target::Mir.canonical(),
            names@[3]@ == Target::Wasm.canonical(),
    {
        &["asm", "llvm-ir", "mir", "wasm"]
    }

    /// Reads a value from its canonical string. Any other string is
    /// rejected with the message `invalid target`.
    pub fn from_str(s: &str) -> (parsed: Result<Target, &'static str>)
        ensures
            match parsed {
                Ok(value) => Self::parse(s@) == Some(value),
                Err(message) => Self::parse(s@) is None && message@ == "invalid target"@,
            },
    {
        if s.eq("asm") {
            Ok(Target::Asm)
        } else if s.eq("llvm-ir") {
            Ok(Target::Llvm)
        } else if s.eq("mir") {
            Ok(Target::Mir)
        } else if s.eq("wasm") {
            Ok(Target::Wasm)
        } else {
            Err("invalid target")
        }
    }

    /// A string stands for a value exactly when it is that value's
    /// canonical string.
    pub proof fn parse_is_inverse_of_canonical(text: Seq<char>, value: Target)
        ensures
            Self::parse(text) == Some(value) <==> text == value.canonical(),
    {
        reveal_strlit("asm");
        reveal_strlit("llvm-ir");
        reveal_strlit("mir");
        reveal_strlit("wasm");
        assert("asm"@.len() == 3);
        assert("llvm-ir"@.len() == 7);
        assert("mir"@.len() == 3);
        assert("wasm"@.len() == 4);
        assert("asm"@[0] != "mir"@[0]);
    }

    /// Parsing the canonical string of a value gives the value back.
    pub proof fn parse_inverts_canonical(value: Target)
        ensures
            Self::parse(value.canonical()) == Some(value),
    {
        Self::parse_is_inverse_of_canonical(value.canonical(), value);
    }

    /// No two values share a canonical string.
    pub proof fn canonical_is_injective(a: Target, b: Target)
        ensures
            a.canonical() == b.canonical() ==> a == b,
    {
        Self::parse_inverts_canonical(a);
        Self::parse_inverts_canonical(b);
    }
}

impl Default for Target {
    fn default() -> (value: Self)
        ensures
            value == Target::Asm,
    {
        Target::Asm
    }
}

impl std::str::FromStr for Target {
    type Err = &'static str;

    fn from_str(s: &str) -> (parsed: Result<Self, Self::Err>)
        ensures
            match parsed {
                Ok(value) => Target::parse(s@) == Some(value),
                Err(message) => Target::parse(s@) is None && message@ == "invalid target"@,
            },
    {
        Target::from_str(s)
    }
}

/// Demangling options
///
/// The `Default` is `Demangle`
#[derive(Clone, Copy, Debug, PartialEq, Eq, Structural)]
pub enum DemangleAssembly {
    /// Show symbols by their readable names
    Demangle,
    /// Show symbols as the compiler names them
    Mangle,
}

impl DemangleAssembly {
    /// The string that stands for this value on the wire.
    pub open spec fn canonical(self) -> Seq<char> {
        match self {
            DemangleAssembly::Demangle => "demangle"@,
            DemangleAssembly::Mangle => "mangle"@,
        }
    }

    /// The value that a string stands for, if any.
    pub open spec fn parse(text: Seq<char>) -> Option<DemangleAssembly> {
        if text == "demangle"@ {
            Some(DemangleAssembly::Demangle)
        } else if text == "mangle"@ {
            Some(DemangleAssembly::Mangle)
        } else {
            None
        }
    }

    /// The canonical string of this value.
    pub fn as_str(self) -> (text: &'static str)
        ensures
            text@ == self.canonical(),
    {
        match self {
            DemangleAssembly::Demangle => "demangle",
            DemangleAssembly::Mangle => "mangle",
        }
    }

    /// Reads a value from its canonical string. Any other string is
    /// rejected with the message `invalid demangle_assembly`.
    pub fn from_str(s: &str) -> (parsed: Result<DemangleAssembly, &'static str>)
        ensures
            match parsed {
                Ok(value) => Self::parse(s@) == Some(value),
                Err(message) => Self::parse(s@) is None && message@ == "invalid demangle_assembly"@,
            },
    {
        if s.eq("demangle") {
            Ok(DemangleAssembly::Demangle)
        } else if s.eq("mangle") {
            Ok(DemangleAssembly::Mangle)
        } else {
            Err("invalid demangle_assembly")
        }
    }

    /// A string stands for a value exactly when it is that value's
    /// canonical string.
    pub proof fn parse_is_inverse_of_canonical(text: Seq<char>, value: DemangleAssembly)
        ensures
            Self::parse(text) == Some(value) <==> text == value.canonical(),
    {
        reveal_strlit("demangle");
        reveal_strlit("mangle");
        assert("demangle"@.len() == 8);
        assert("mangle"@.len() == 6);
    }

    /// Parsing the canonical string of a value gives the value back.
    pub proof fn parse_inverts_canonical(value: DemangleAssembly)
        ensures
            Self::parse(value.canonical()) == Some(value),
    {
        Self::parse_is_inverse_of_canonical(value.canonical(), value);
    }

    /// No two values share a canonical string.
    pub proof fn canonical_is_injective(a: DemangleAssembly, b: DemangleAssembly)
        ensures
            a.canonical() == b.canonical() ==> a == b,
    {
        Self::parse_inverts_canonical(a);
        Self::parse_inverts_canonical(b);
    }
}

impl Default for DemangleAssembly {
    fn default() -> (value: Self)
        ensures
            value == DemangleAssembly::Demangle,
    {
        DemangleAssembly::Demangle
    }
}

impl std::str::FromStr for DemangleAssembly {
    type Err = &'static str;

    fn from_str(s: &str) -> (parsed: Result<Self, Self::Err>)
        ensures
            match parsed {
                Ok(value) => DemangleAssembly::parse(s@) == Some(value),
                Err(message) => DemangleAssembly::parse(s@) is None
                    && message@ == "invalid demangle_assembly"@,
            },
    {
        DemangleAssembly::from_str(s)
    }
}

/// Assembler visibility options
///
/// The `Default` is `Hide`
#[derive(Clone, Copy, Debug, PartialEq, Eq, Structural)]
pub enum HideAssemblerDirectives {
    /// Leave assembler directives out
    Hide,
    /// Keep assembler directives
    Show,
}

impl HideAssemblerDirectives {
    /// The string that stands for this value on the wire.
    pub open spec fn canonical(self) -> Seq<char> {
        match self {
            HideAssemblerDirectives::Hide => "hide"@,
            HideAssemblerDirectives::Show => "show"@,
        }
    }

    /// The value that a string stands for, if any.
    pub open spec fn parse(text: Seq<char>) -> Option<HideAssemblerDirectives> {
        if text == "hide"@ {
            Some(HideAssemblerDirectives::Hide)
        } else if text == "show"@ {
            Some(HideAssemblerDirectives::Show)
        } else {
            None
        }
    }

    /// The canonical string of this value.
    pub fn as_str(self) -> (text: &'static str)
        ensures
            text@ == self.canonical(),
    {
        match self {
            HideAssemblerDirectives::Hide => "hide",
            HideAssemblerDirectives::Show => "show",
        }
    }

    /// Reads a value from its canonical string. Any other string is
    /// rejected with the message `invalid hide_assembler_directives`.
    pub fn from_str(s: &str) -> (parsed: Result<HideAssemblerDirectives, &'static str>)
        ensures
            match parsed {
                Ok(value) => Self::parse(s@) == Some(value),
                Err(message) => Self::parse(s@) is None
                    && message@ == "invalid hide_assembler_directives"@,
            },
    {
        if s.eq("hide") {
            Ok(HideAssemblerDirectives::Hide)
        } else if s.eq("show") {
            Ok(HideAssemblerDirectives::Show)
        } else {
            Err("invalid hide_assembler_directives")
        }
    }

    /// A string stands for a value exactly when it is that value's
    /// canonical string.
    pub proof fn parse_is_inverse_of_canonical(text: Seq<char>, value: HideAssemblerDirectives)
        ensures
            Self::parse(text) == Some(value) <==> text == value.canonical(),
    {
        reveal_strlit("hide");
        reveal_strlit("show");
        assert("hide"@[0] != "show"@[0]);
    }

    /// Parsing the canonical string of a value gives the value back.
    pub proof fn parse_inverts_canonical(value: HideAssemblerDirectives)
        ensures
            Self::parse(value.canonical()) == Some(value),
    {
        Self::parse_is_inverse_of_canonical(value.canonical(), value);
    }

    /// No two values share a canonical string.
    pub proof fn canonical_is_injective(a: HideAssemblerDirectives, b: HideAssemblerDirectives)
        ensures
            a.canonical() == b.canonical() ==> a == b,
    {
        Self::parse_inverts_canonical(a);
        Self::parse_inverts_canonical(b);
    }
}

impl Default for HideAssemblerDirectives {
    fn default() -> (value: Self)
        ensures
            value == HideAssemblerDirectives::Hide,
    {
        HideAssemblerDirectives::Hide
    }
}

impl std::str::FromStr for HideAssemblerDirectives {
    type Err = &'static str;

    fn from_str(s: &str) -> (parsed: Result<Self, Self::Err>)
        ensures
            match parsed {
                Ok(value) => HideAssemblerDirectives::parse(s@) == Some(value),
                Err(message) => HideAssemblerDirectives::parse(s@) is None
                    && message@ == "invalid hide_assembler_directives"@,
            },
    {
        HideAssemblerDirectives::from_str(s)
    }
}

/// Parameters for compiling rustlang code
#[derive(Debug, Clone, PartialEq)]
pub struct Request {
    /// The desired compiler output format
    pub target: Target,
    /// The flavor of assembly, where one is asked for
    pub assembly_flavor: Option<AsmFlavor>,
    /// Whether symbols are shown by their readable names
    pub demangle_assembly: DemangleAssembly,
    /// Whether assembler directives are left out
    pub hide_assembler_directives: HideAssemblerDirectives,
    /// rust release channel
    pub channel: Channel,
    /// compilation mode
    pub mode: Mode,
    /// rust edition, empty for the playground's own choice
    pub edition: String,
    /// crate type
    pub crate_type: CrateType,
    /// contains tests
    pub tests: bool,
    /// whether a backtrace is asked for
    pub backtrace: bool,
    /// code to compile
    pub code: String,
}

/// A request, as it is known to contracts.
pub struct RequestView {
    /// The desired compiler output format
    pub target: Target,
    /// The flavor of assembly, where one is asked for
    pub assembly_flavor: Option<AsmFlavor>,
    /// Whether symbols are shown by their readable names
    pub demangle_assembly: DemangleAssembly,
    /// Whether assembler directives are left out
    pub hide_assembler_directives: HideAssemblerDirectives,
    /// rust release channel
    pub channel: Channel,
    /// compilation mode
    pub mode: Mode,
    /// rust edition, empty for the playground's own choice
    pub edition: Seq<char>,
    /// crate type
    pub crate_type: CrateType,
    /// contains tests
    pub tests: bool,
    /// whether a backtrace is asked for
    pub backtrace: bool,
    /// code to compile
    pub code: Seq<char>,
}

impl View for Request {
    type V = RequestView;

    open spec fn view(&self) -> RequestView {
        RequestView {
            target: self.target,
            assembly_flavor: self.assembly_flavor,
            demangle_assembly: self.demangle_assembly,
            hide_assembler_directives: self.hide_assembler_directives,
            channel: self.channel,
            mode: self.mode,
            edition: self.edition@,
            crate_type: self.crate_type,
            tests: self.tests,
            backtrace: self.backtrace,
            code: self.code@,
        }
    }
}

impl RequestView {
    /// The request for the given code with every option at its default.
    pub open spec fn defaults(code: Seq<char>) -> RequestView {
        RequestView {
            target: Target::Asm,
            assembly_flavor: None,
            demangle_assembly: DemangleAssembly::Demangle,
            hide_assembler_directives: HideAssemblerDirectives::Hide,
            channel: Channel::Stable,
            mode: Mode::Debug,
            edition: Seq::empty(),
            crate_type: CrateType::Binary,
            tests: false,
            backtrace: false,
            code,
        }
    }
}

impl Request {
    /// Return a new Request with default options
    pub fn new(code: &str) -> (request: Self)
        ensures
            request@ == RequestView::defaults(code@),
    {
        Request {
            target: Target::Asm,
            assembly_flavor: None,
            demangle_assembly: DemangleAssembly::Demangle,
            hide_assembler_directives: HideAssemblerDirectives::Hide,
            channel: Channel::Stable,
            mode: Mode::Debug,
            edition: String::new(),
            crate_type: CrateType::Binary,
            tests: false,
            backtrace: false,
            code: code.to_owned(),
        }
    }

    /// Returns a new `RequestBuilder` instance configured with code to compile
    pub fn builder(code: &str) -> (builder: RequestBuilder)
        ensures
            builder@ == Draft::seeded(code@),
    {
        RequestBuilder {
            target: None,
            assembly_flavor: None,
            demangle_assembly: None,
            hide_assembler_directives: None,
            channel: None,
            mode: None,
            edition: None,
            crate_type: None,
            tests: None,
            backtrace: None,
            code: Some(code.to_owned()),
        }
    }
}

impl Default for Request {
    fn default() -> (request: Self)
        ensures
            request@ == RequestView::defaults(Seq::empty()),
    {
        Request {
            target: Target::Asm,
            assembly_flavor: None,
            demangle_assembly: DemangleAssembly::Demangle,
            hide_assembler_directives: HideAssemblerDirectives::Hide,
            channel: Channel::Stable,
            mode: Mode::Debug,
            edition: String::new(),
            crate_type: CrateType::Binary,
            tests: false,
            backtrace: false,
            code: String::new(),
        }
    }
}

/// One thing that a builder can be told: the value of one field.
pub enum Setting {
    /// The desired compiler output format
    Target(Target),
    /// The flavor of assembly, where one is asked for
    AssemblyFlavor(Option<AsmFlavor>),
    /// Whether symbols are shown by their readable names
    DemangleAssembly(DemangleAssembly),
    /// Whether assembler directives are left out
    HideAssemblerDirectives(HideAssemblerDirectives),
    /// rust release channel
    Channel(Channel),
    /// compilation mode
    Mode(Mode),
    /// rust edition, empty for the playground's own choice
    Edition(Seq<char>),
    /// crate type
    CrateType(CrateType),
    /// contains tests
    Tests(bool),
    /// whether a backtrace is asked for
    Backtrace(bool),
    /// code to compile
    Code(Seq<char>),
}

impl Setting {
    /// The field that this setting speaks of, by its place in the request.
    pub open spec fn slot(self) -> nat {
        match self {
            Setting::Target(_) => 0,
            Setting::AssemblyFlavor(_) => 1,
            Setting::DemangleAssembly(_) => 2,
            Setting::HideAssemblerDirectives(_) => 3,
            Setting::Channel(_) => 4,
            Setting::Mode(_) => 5,
            Setting::Edition(_) => 6,
            Setting::CrateType(_) => 7,
            Setting::Tests(_) => 8,
            Setting::Backtrace(_) => 9,
            Setting::Code(_) => 10,
        }
    }
}

/// What a builder has been told so far, as it is known to contracts:
/// for each field its value, or nothing where the field was never set.
pub struct Draft {
    /// The desired compiler output format
    pub target: Option<Target>,
    /// The flavor of assembly, where one is asked for
    pub assembly_flavor: Option<Option<AsmFlavor>>,
    /// Whether symbols are shown by their readable names
    pub demangle_assembly: Option<DemangleAssembly>,
    /// Whether assembler directives are left out
    pub hide_assembler_directives: Option<HideAssemblerDirectives>,
    /// rust release channel
    pub channel: Option<Channel>,
    /// compilation mode
    pub mode: Option<Mode>,
    /// rust edition, empty for the playground's own choice
    pub edition: Option<Seq<char>>,
    /// crate type
    pub crate_type: Option<CrateType>,
    /// contains tests
    pub tests: Option<bool>,
    /// whether a backtrace is asked for
    pub backtrace: Option<bool>,
    /// code to compile
    pub code: Option<Seq<char>>,
}

impl Draft {
    /// The draft in which no field is set.
    pub open spec fn blank() -> Draft {
        Draft {
            target: None,
            assembly_flavor: None,
            demangle_assembly: None,
            hide_assembler_directives: None,
            channel: None,
            mode: None,
            edition: None,
            crate_type: None,
            tests: None,
            backtrace: None,
            code: None,
        }
    }

    /// The draft after one more setting: the field that the setting speaks
    /// of holds its value, whatever it held before, and no other field
    /// changes.
    pub open spec fn set(self, setting: Setting) -> Draft {
        match setting {
            Setting::Target(value) => Draft { target: Some(value), ..self },
            Setting::AssemblyFlavor(value) => Draft { assembly_flavor: Some(value), ..self },
            Setting::DemangleAssembly(value) => Draft { demangle_assembly: Some(value), ..self },
            Setting::HideAssemblerDirectives(value) => Draft {
                hide_assembler_directives: Some(value),
                ..self
            },
            Setting::Channel(value) => Draft { channel: Some(value), ..self },
            Setting::Mode(value) => Draft { mode: Some(value), ..self },
            Setting::Edition(value) => Draft { edition: Some(value), ..self },
            Setting::CrateType(value) => Draft { crate_type: Some(value), ..self },
            Setting::Tests(value) => Draft { tests: Some(value), ..self },
            Setting::Backtrace(value) => Draft { backtrace: Some(value), ..self },
            Setting::Code(value) => Draft { code: Some(value), ..self },
        }
    }

    /// The draft after a sequence of settings, taken from first to last.
    pub open spec fn set_all(self, settings: Seq<Setting>) -> Draft
        decreases settings.len(),
    {
        if settings.len() == 0 {
            self
        } else {
            self.set_all(settings.drop_last()).set(settings.last())
        }
    }

    /// The draft of a builder that starts from the given code.
    pub open spec fn seeded(code: Seq<char>) -> Draft {
        Draft::blank().set(Setting::Code(code))
    }

    /// The request that a draft stands for: each field at the value it was
    /// set to, or at its default where it was never set. A draft without
    /// code stands for no request, and the answer names the field.
    pub open spec fn finish(self) -> Result<RequestView, Seq<char>> {
        match self.code {
            None => Err("code"@),
            Some(code) => Ok(
                RequestView {
                    target: match self.target {
                        Some(value) => value,
                        None => Target::Asm,
                    },
                    assembly_flavor: match self.assembly_flavor {
                        Some(value) => value,
                        None => None,
                    },
                    demangle_assembly: match self.demangle_assembly {
                        Some(value) => value,
                        None => DemangleAssembly::Demangle,
                    },
                    hide_assembler_directives: match self.hide_assembler_directives {
                        Some(value) => value,
                        None => HideAssemblerDirectives::Hide,
                    },
                    channel: match self.channel {
                        Some(value) => value,
                        None => Channel::Stable,
                    },
                    mode: match self.mode {
                        Some(value) => value,
                        None => Mode::Debug,
                    },
                    edition: match self.edition {
                        Some(value) => value,
                        None => Seq::empty(),
                    },
                    crate_type: match self.crate_type {
                        Some(value) => value,
                        None => CrateType::Binary,
                    },
                    tests: match self.tests {
                        Some(value) => value,
                        None => false,
                    },
                    backtrace: match self.backtrace {
                        Some(value) => value,
                        None => false,
                    },
                    code,
                },
            ),
        }
    }
}

/// Builder for [`Request`]: it collects the code and the options that are
/// to differ from their defaults.
#[derive(Debug, Clone, PartialEq)]
pub struct RequestBuilder {
    target: Option<Target>,
    assembly_flavor: Option<Option<AsmFlavor>>,
    demangle_assembly: Option<DemangleAssembly>,
    hide_assembler_directives: Option<HideAssemblerDirectives>,
    channel: Option<Channel>,
    mode: Option<Mode>,
    edition: Option<String>,
    crate_type: Option<CrateType>,
    tests: Option<bool>,
    backtrace: Option<bool>,
    code: Option<String>,
}

impl View for RequestBuilder {
    type V = Draft;

    closed spec fn view(&self) -> Draft {
        Draft {
            target: self.target,
            assembly_flavor: self.assembly_flavor,
            demangle_assembly: self.demangle_assembly,
            hide_assembler_directives: self.hide_assembler_directives,
            channel: self.channel,
            mode: self.mode,
            edition: match self.edition {
                Some(value) => Some(value@),
                None => None,
            },
            crate_type: self.crate_type,
            tests: self.tests,
            backtrace: self.backtrace,
            code: match self.code {
                Some(value) => Some(value@),
                None => None,
            },
        }
    }
}

impl Default for RequestBuilder {
    fn default() -> (builder: Self)
        ensures
            builder@ == Draft::blank(),
    {
        RequestBuilder {
            target: None,
            assembly_flavor: None,
            demangle_assembly: None,
            hide_assembler_directives: None,
            channel: None,
            mode: None,
            edition: None,
            crate_type: None,
            tests: None,
            backtrace: None,
            code: None,
        }
    }
}

impl RequestBuilder {
    /// Sets the desired compiler output format.
    pub fn target(&mut self, value: Target) -> (builder: &mut Self)
        ensures
            builder@ == old(self)@.set(Setting::Target(value)),
            *final(self) == *final(builder),
    {
        self.target = Some(value);
        self
    }

    /// Sets the flavor of assembly, or takes it back with `None`.
    pub fn assembly_flavor(&mut self, value: Option<AsmFlavor>) -> (builder: &mut Self)
        ensures
            builder@ == old(self)@.set(Setting::AssemblyFlavor(value)),
            *final(self) == *final(builder),
    {
        self.assembly_flavor = Some(value);
        self
    }

    /// Sets whether symbols are shown by their readable names.
    pub fn demangle_assembly(&mut self, value: DemangleAssembly) -> (builder: &mut Self)
        ensures
            builder@ == old(self)@.set(Setting::DemangleAssembly(value)),
            *final(self) == *final(builder),
    {
        self.demangle_assembly = Some(value);
        self
    }

    /// Sets whether assembler directives are left out.
    pub fn hide_assembler_directives(
        &mut self,
        value: HideAssemblerDirectives,
    ) -> (builder: &mut Self)
        ensures
            builder@ == old(self)@.set(Setting::HideAssemblerDirectives(value)),
            *final(self) == *final(builder),
    {
        self.hide_assembler_directives = Some(value);
        self
    }

    /// Sets the rust release channel.
    pub fn channel(&mut self, value: Channel) -> (builder: &mut Self)
        ensures
            builder@ == old(self)@.set(Setting::Channel(value)),
            *final(self) == *final(builder),
    {
        self.channel = Some(value);
        self
    }

    /// Sets the compilation mode.
    pub fn mode(&mut self, value: Mode) -> (builder: &mut Self)
        ensures
            builder@ == old(self)@.set(Setting::Mode(value)),
            *final(self) == *final(builder),
    {
        self.mode = Some(value);
        self
    }

    /// Sets the rust edition.
    pub fn edition(&mut self, value: &str) -> (builder: &mut Self)
        ensures
            builder@ == old(self)@.set(Setting::Edition(value@)),
            *final(self) == *final(builder),
    {
        self.edition = Some(value.to_owned());
        self
    }

    /// Sets the crate type.
    pub fn crate_type(&mut self, value: CrateType) -> (builder: &mut Self)
        ensures
            builder@ == old(self)@.set(Setting::CrateType(value)),
            *final(self) == *final(builder),
    {
        self.crate_type = Some(value);
        self
    }

    /// Sets whether the code contains tests.
    pub fn tests(&mut self, value: bool) -> (builder: &mut Self)
        ensures
            builder@ == old(self)@.set(Setting::Tests(value)),
            *final(self) == *final(builder),
    {
        self.tests = Some(value);
        self
    }

    /// Sets whether a backtrace is asked for.
    pub fn backtrace(&mut self, value: bool) -> (builder: &mut Self)
        ensures
            builder@ == old(self)@.set(Setting::Backtrace(value)),
            *final(self) == *final(builder),
    {
        self.backtrace = Some(value);
        self
    }

    /// Sets the code to compile.
    pub fn code(&mut self, value: &str) -> (builder: &mut Self)
        ensures
            builder@ == old(self)@.set(Setting::Code(value@)),
            *final(self) == *final(builder),
    {
        self.code = Some(value.to_owned());
        self
    }

    /// Builds the request: every field that was set at its value, every
    /// other at its default.
    ///
    /// Fails only where the code was never given, and then names it.
    pub fn build(&self) -> (built: Result<Request, MissingField>)
        ensures
            match self@.finish() {
                Ok(request) => built matches Ok(made) && made@ == request,
                Err(field) => built matches Err(missing) && missing.field@ == field,
            },
    {
        let code = match &self.code {
            Some(code) => code.clone(),
            None => {
                return Err(MissingField { field: "code" });
            },
        };
        Ok(
            Request {
                target: match self.target {
                    Some(value) => value,
                    None => Target::Asm,
                },
                assembly_flavor: match self.assembly_flavor {
                    Some(value) => value,
                    None => None,
                },
                demangle_assembly: match self.demangle_assembly {
                    Some(value) => value,
                    None => DemangleAssembly::Demangle,
                },
                hide_assembler_directives: match self.hide_assembler_directives {
                    Some(value) => value,
                    None => HideAssemblerDirectives::Hide,
                },
                channel: match self.channel {
                    Some(value) => value,
                    None => Channel::Stable,
                },
                mode: match self.mode {
                    Some(value) => value,
                    None => Mode::Debug,
                },
                edition: match &self.edition {
                    Some(value) => value.clone(),
                    None => String::new(),
                },
                crate_type: match self.crate_type {
                    Some(value) => value,
                    None => CrateType::Binary,
                },
                tests: match self.tests {
                    Some(value) => value,
                    None => false,
                },
                backtrace: match self.backtrace {
                    Some(value) => value,
                    None => false,
                },
                code,
            },
        )
    }
}

/// A request built with nothing but its code has every option at its
/// documented default.
pub proof fn nothing_set_gives_defaults(code: Seq<char>)
    ensures
        Draft::seeded(code).finish() == Ok::<RequestView, Seq<char>>(RequestView::defaults(code)),
{
}

/// A draft without code stands for no request, whatever else is set, and
/// one with code always stands for one.
pub proof fn only_code_is_required(draft: Draft)
    ensures
        draft.finish() is Ok <==> draft.code is Some,
        draft.finish() matches Err(field) ==> field == "code"@,
{
}

/// Setting a field twice keeps the last value.
pub proof fn last_setting_wins(draft: Draft, first: Setting, last: Setting)
    requires
        first.slot() == last.slot(),
    ensures
        draft.set(first).set(last) == draft.set(last),
{
}

/// Settings of different fields can be made in either order.
pub proof fn settings_of_different_fields_commute(draft: Draft, a: Setting, b: Setting)
    requires
        a.slot() != b.slot(),
    ensures
        draft.set(a).set(b) == draft.set(b).set(a),
{
}

/// Making one sequence of settings and then another is making the two in
/// a row.
pub proof fn settings_in_a_row(draft: Draft, first: Seq<Setting>, next: Seq<Setting>)
    ensures
        draft.set_all(first).set_all(next) == draft.set_all(first + next),
    decreases next.len(),
{
    if next.len() > 0 {
        settings_in_a_row(draft, first, next.drop_last());
        assert((first + next).drop_last() == first + next.drop_last());
    }
}

/// The code can be set before or after settings that leave the code alone.
pub proof fn code_moves_past_other_settings(draft: Draft, code: Seq<char>, others: Seq<Setting>)
    requires
        forall|i: int| 0 <= i < others.len() ==> !(#[trigger] others[i] is Code),
    ensures
        draft.set(Setting::Code(code)).set_all(others) == draft.set_all(others).set(
            Setting::Code(code),
        ),
    decreases others.len(),
{
    if others.len() > 0 {
        let earlier = others.drop_last();
        code_moves_past_other_settings(draft, code, earlier);
        settings_of_different_fields_commute(
            draft.set_all(earlier),
            Setting::Code(code),
            others.last(),
        );
    }
}

/// The two ways of giving a builder its code agree.
///
/// One builder starts from the code and is then told `before` and `after`.
/// The other starts blank, is told `before`, is given the same code by its
/// setter, and is then told `after`. Where `before` leaves the code alone,
/// the two end in the same draft and so build the same request, or fail
/// alike.
pub proof fn code_first_and_code_later_agree(
    code: Seq<char>,
    before: Seq<Setting>,
    after: Seq<Setting>,
)
    requires
        forall|i: int| 0 <= i < before.len() ==> !(#[trigger] before[i] is Code),
    ensures
        Draft::seeded(code).set_all(before + after) == Draft::blank().set_all(before).set(
            Setting::Code(code),
        ).set_all(after),
        Draft::seeded(code).set_all(before + after).finish() == Draft::blank().set_all(before).set(
            Setting::Code(code),
        ).set_all(after).finish(),
{
    code_moves_past_other_settings(Draft::blank(), code, before);
    settings_in_a_row(Draft::seeded(code), before, after);
}

impl Payload for Request {
    open spec fn wire(&self) -> Seq<MemberView> {
        seq![
            MemberView { name: "target"@, value: DatumView::Text(self.target.canonical()) },
        ] + (match self.assembly_flavor {
            Some(value) => seq![
                MemberView { name: "assemblyFlavor"@, value: DatumView::Text(value.canonical()) },
            ],
            None => Seq::empty(),
        }) + seq![
            MemberView {
                name: "demangleAssembly"@,
                value: DatumView::Text(self.demangle_assembly.canonical()),
            },
            MemberView {
                name: "hideAssemblerDirectives"@,
                value: DatumView::Text(self.hide_assembler_directives.canonical()),
            },
            MemberView { name: "channel"@, value: DatumView::Text(self.channel.canonical()) },
            MemberView { name: "mode"@, value: DatumView::Text(self.mode.canonical()) },
            MemberView { name: "edition"@, value: DatumView::Text(self.edition@) },
            MemberView { name: "crateType"@, value: DatumView::Text(self.crate_type.canonical()) },
            MemberView { name: "tests"@, value: DatumView::Flag(self.tests) },
            MemberView { name: "backtrace"@, value: DatumView::Flag(self.backtrace) },
            MemberView { name: "code"@, value: DatumView::Text(self.code@) },
        ]
    }

    fn members(&self) -> (list: Vec<Member<'_>>) {
        let mut list: Vec<Member<'_>> = Vec::new();
        list.push(Member { name: "target", value: Datum::Text(self.target.as_str()) });
        match self.assembly_flavor {
            Some(value) => {
                list.push(Member { name: "assemblyFlavor", value: Datum::Text(value.as_str()) });
            },
            None => {},
        }
        list.push(
            Member {
                name: "demangleAssembly",
                value: Datum::Text(self.demangle_assembly.as_str()),
            },
        );
        list.push(
            Member {
                name: "hideAssemblerDirectives",
                value: Datum::Text(self.hide_assembler_directives.as_str()),
            },
        );
        list.push(Member { name: "channel", value: Datum::Text(self.channel.as_str()) });
        list.push(Member { name: "mode", value: Datum::Text(self.mode.as_str()) });
        list.push(Member { name: "edition", value: Datum::Text(self.edition.as_str()) });
        list.push(Member { name: "crateType", value: Datum::Text(self.crate_type.as_str()) });
        list.push(Member { name: "tests", value: Datum::Flag(self.tests) });
        list.push(Member { name: "backtrace", value: Datum::Flag(self.backtrace) });
        list.push(Member { name: "code", value: Datum::Text(self.code.as_str()) });
        list
    }
}

/// A request without an assembly flavor says nothing of one on the wire:
/// no member of that name is written, with any value.
pub proof fn unset_flavor_is_left_out(request: Request)
    requires
        request.assembly_flavor is None,
    ensures
        request.wire().len() == 10,
        forall|i: int|
            0 <= i < request.wire().len() ==> (#[trigger] request.wire()[i]).name
                != "assemblyFlavor"@,
{
    reveal_strlit("assemblyFlavor");
    reveal_strlit("target");
    reveal_strlit("demangleAssembly");
    reveal_strlit("hideAssemblerDirectives");
    reveal_strlit("channel");
    reveal_strlit("mode");
    reveal_strlit("edition");
    reveal_strlit("crateType");
    reveal_strlit("tests");
    reveal_strlit("backtrace");
    reveal_strlit("code");
    assert("assemblyFlavor"@.len() == 14);
    assert("target"@.len() == 6);
    assert("demangleAssembly"@.len() == 16);
    assert("hideAssemblerDirectives"@.len() == 23);
    assert("channel"@.len() == 7);
    assert("mode"@.len() == 4);
    assert("edition"@.len() == 7);
    assert("crateType"@.len() == 9);
    assert("tests"@.len() == 5);
    assert("backtrace"@.len() == 9);
    assert("code"@.len() == 4);
}

/// A request with an assembly flavor names it on the wire, right after the
/// target.
pub proof fn set_flavor_is_written(request: Request)
    requires
        request.assembly_flavor is Some,
    ensures
        request.wire().len() == 11,
        request.wire()[1] == (MemberView {
            name: "assemblyFlavor"@,
            value: DatumView::Text(request.assembly_flavor->Some_0.canonical()),
        }),
{
}

/// Compile operation response
#[derive(Debug, Clone, PartialEq)]
pub struct Response {
    /// Indicates if request was successful or not
    pub success: bool,
    /// Compiled code
    pub code: String,
    /// Stdout line output
    pub stdout: String,
    /// Stderr line output
    pub stderr: String,
}

/// A compile response, as it is known to contracts.
pub struct ResponseView {
    /// Indicates if request was successful or not
    pub success: bool,
    /// Compiled code
    pub code: Seq<char>,
    /// Stdout line output
    pub stdout: Seq<char>,
    /// Stderr line output
    pub stderr: Seq<char>,
}

impl View for Response {
    type V = ResponseView;

    open spec fn view(&self) -> ResponseView {
        ResponseView {
            success: self.success,
            code: self.code@,
            stdout: self.stdout@,
            stderr: self.stderr@,
        }
    }
}

impl Answer for Response {
    open spec fn read(doc: Map<Seq<char>, Item>) -> Result<ResponseView, Seq<char>> {
        if flag_at(doc, "success"@) is None {
            Err("success"@)
        } else if text_at(doc, "code"@) is None {
            Err("code"@)
        } else if text_at(doc, "stdout"@) is None {
            Err("stdout"@)
        } else if text_at(doc, "stderr"@) is None {
            Err("stderr"@)
        } else {
            Ok(
                ResponseView {
                    success: flag_at(doc, "success"@)->Some_0,
                    code: text_at(doc, "code"@)->Some_0,
                    stdout: text_at(doc, "stdout"@)->Some_0,
                    stderr: text_at(doc, "stderr"@)->Some_0,
                },
            )
        }
    }

    fn decode(doc: &serde_json::Value) -> (read: Result<Self, &'static str>) {
        let success = required_flag(doc, "success")?;
        let code = required_text(doc, "code")?;
        let stdout = required_text(doc, "stdout")?;
        let stderr = required_text(doc, "stderr")?;
        Ok(Response { success, code, stdout, stderr })
    }
}

} // verus!
