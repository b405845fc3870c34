//! The closed sets of options that the playground understands.
//!
//! Every option has one canonical string, the one that travels on the wire.
//! `canonical` gives the string of a value and `parse` the value of a
//! string; the two are inverses of each other. Where a value can come from
//! a command line, `from_str` reads it and `variants` lists what is read.

use vstd::prelude::*;

verus! {

/// Type of crate
///
/// The `Default` is `Binary`
#[derive(Clone, Copy, Debug, PartialEq, Eq, Structural)]
pub enum CrateType {
    /// Rust binary
    Binary,
    /// Rust library
    Library,
}

impl CrateType {
    /// The string that stands for this value on the wire.
    pub open spec fn canonical(self) -> Seq<char> {
        match self {
            CrateType::Binary => "bin"@,
            CrateType::Library => "lib"@,
        }
    }

    /// The value that a string stands for, if any.
    pub open spec fn parse(text: Seq<char>) -> Option<CrateType> {
        if text == "bin"@ {
            Some(CrateType::Binary)
        } else if text == "lib"@ {
            Some(CrateType::Library)
        } else {
            None
        }
    }

    /// The canonical string of this value.
    pub fn as_str(self) -> (text: &'static str)
        ensures
            text@ == self.canonical(),
    {
        match self {
            CrateType::Binary => "bin",
            CrateType::Library => "lib",
        }
    }

    /// The canonical strings of all values, in declaration order.
    pub fn variants() -> (names: &'static [&'static str])
        ensures
            names@.len() == 2,
            names@[0]@ == CrateType::Binary.canonical(),
            names@[1]@ == CrateType::Library.canonical(),
    {
        &["bin", "lib"]
    }

    /// Reads a value from its canonical string. Any other string is
    /// rejected with the message `invalid crate_type`.
    pub fn from_str(s: &str) -> (parsed: Result<CrateType, &'static str>)
        ensures
            match parsed {
                Ok(value) => Self::parse(s@) == Some(value),
                Err(message) => Self::parse(s@) is None && message@ == "invalid crate_type"@,
            },
    {
        if s.eq("bin") {
            Ok(CrateType::Binary)
        } else if s.eq("lib") {
            Ok(CrateType::Library)
        } else {
            Err("invalid crate_type")
        }
    }

    /// A string stands for a value exactly when it is that value's
    /// canonical string.
    pub proof fn parse_is_inverse_of_canonical(text: Seq<char>, value: CrateType)
        ensures
            Self::parse(text) == Some(value) <==> text == value.canonical(),
    {
        reveal_strlit("bin");
        reveal_strlit("lib");
        assert("bin"@[0] != "lib"@[0]);
    }

    /// Parsing the canonical string of a value gives the value back.
    pub proof fn parse_inverts_canonical(value: CrateType)
        ensures
            Self::parse(value.canonical()) == Some(value),
    {
        Self::parse_is_inverse_of_canonical(value.canonical(), value);
    }

    /// No two values share a canonical string.
    pub proof fn canonical_is_injective(a: CrateType, b: CrateType)
        ensures
            a.canonical() == b.canonical() ==> a == b,
    {
        Self::parse_inverts_canonical(a);
        Self::parse_inverts_canonical(b);
    }
}

impl Default for CrateType {
    fn default() -> (value: Self)
        ensures
            value == CrateType::Binary,
    {
        CrateType::Binary
    }
}

impl std::str::FromStr for CrateType {
    type Err = &'static str;

    fn from_str(s: &str) -> (parsed: Result<Self, Self::Err>)
        ensures
            match parsed {
                Ok(value) => CrateType::parse(s@) == Some(value),
                Err(message) => CrateType::parse(s@) is None && message@ == "invalid crate_type"@,
            },
    {
        CrateType::from_str(s)
    }
}

/// Rustc compilation mode.
///
/// The `Default` is `Debug`
#[derive(Clone, Copy, Debug, PartialEq, Eq, Structural)]
pub enum Mode {
    /// Debug compilation mode
    Debug,
    /// Release compilation mode
    Release,
}

impl Mode {
    /// The string that stands for this value on the wire.
    pub open spec fn canonical(self) -> Seq<char> {
        match self {
            Mode::Debug => "debug"@,
            Mode::Release => "release"@,
        }
    }

    /// The value that a string stands for, if any.
    pub open spec fn parse(text: Seq<char>) -> Option<Mode> {
        if text == "debug"@ {
            Some(Mode::Debug)
        } else if text == "release"@ {
            Some(Mode::Release)
        } else {
            None
        }
    }

    /// The canonical string of this value.
    pub fn as_str(self) -> (text: &'static str)
        ensures
            text@ == self.canonical(),
    {
        match self {
            Mode::Debug => "debug",
            Mode::Release => "release",
        }
    }

    /// Reads a value from its canonical string. Any other string is
    /// rejected with the message `invalid mode`.
    pub fn from_str(s: &str) -> (parsed: Result<Mode, &'static str>)
        ensures
            match parsed {
                Ok(value) => Self::parse(s@) == Some(value),
                Err(message) => Self::parse(s@) is None && message@ == "invalid mode"@,
            },
    {
        if s.eq("debug") {
            Ok(Mode::Debug)
        } else if s.eq("release") {
            Ok(Mode::Release)
        } else {
            Err("invalid mode")
        }
    }

    /// A string stands for a value exactly when it is that value's
    /// canonical string.
    pub proof fn parse_is_inverse_of_canonical(text: Seq<char>, value: Mode)
        ensures
            Self::parse(text) == Some(value) <==> text == value.canonical(),
    {
        reveal_strlit("debug");
        reveal_strlit("release");
        assert("debug"@.len() == 5);
        assert("release"@.len() == 7);
    }

    /// Parsing the canonical string of a value gives the value back.
    pub proof fn parse_inverts_canonical(value: Mode)
        ensures
            Self::parse(value.canonical()) == Some(value),
    {
        Self::parse_is_inverse_of_canonical(value.canonical(), value);
    }

    /// No two values share a canonical string.
    pub proof fn canonical_is_injective(a: Mode, b: Mode)
        ensures
            a.canonical() == b.canonical() ==> a == b,
    {
        Self::parse_inverts_canonical(a);
        Self::parse_inverts_canonical(b);
    }
}

impl Default for Mode {
    fn default() -> (value: Self)
        ensures
            value == Mode::Debug,
    {
        Mode::Debug
    }
}

impl std::str::FromStr for Mode {
    type Err = &'static str;

    fn from_str(s: &str) -> (parsed: Result<Self, Self::Err>)
        ensures
            match parsed {
                Ok(value) => Mode::parse(s@) == Some(value),
                Err(message) => Mode::parse(s@) is None && message@ == "invalid mode"@,
            },
    {
        Mode::from_str(s)
    }
}

/// Release train options.
///
/// The `Default` is `Stable`
#[derive(Clone, Copy, Debug, PartialEq, Eq, Structural)]
pub enum Channel {
    /// stable release
    Stable,
    /// beta release
    Beta,
    /// nightly release
    Nightly,
}

impl Channel {
    /// The string that stands for this value on the wire.
    pub open spec fn canonical(self) -> Seq<char> {
        match self {
            Channel::Stable => "stable"@,
            Channel::Beta => "beta"@,
            Channel::Nightly => "nightly"@,
        }
    }

    /// The value that a string stands for, if any.
    pub open spec fn parse(text: Seq<char>) -> Option<Channel> {
        if text == "stable"@ {
            Some(Channel::Stable)
        } else if text == "beta"@ {
            Some(Channel::Beta)
        } else if text == "nightly"@ {
            Some(Channel::Nightly)
        } else {
            None
        }
    }

    /// The canonical string of this value.
    pub fn as_str(self) -> (text: &'static str)
        ensures
            text@ == self.canonical(),
    {
        match self {
            Channel::Stable => "stable",
            Channel::Beta => "beta",
            Channel::Nightly => "nightly",
        }
    }

    /// The canonical strings of all values, in declaration order.
    pub fn variants() -> (names: &'static [&'static str])
        ensures
            names@.len() == 3,
            names@[0]@ == Channel::Stable.canonical(),
            names@[1]@ == Channel::Beta.canonical(),
            names@[2]@ == Channel::Nightly.canonical(),
    {
        &["stable", "beta", "nightly"]
    }

    /// Reads a value from its canonical string. Any other string is
    /// rejected with the message `invalid channel`.
    pub fn from_str(s: &str) -> (parsed: Result<Channel, &'static str>)
        ensures
            match parsed {
                Ok(value) => Self::parse(s@) == Some(value),
                Err(message) => Self::parse(s@) is None && message@ == "invalid channel"@,
            },
    {
        if s.eq("stable") {
            Ok(Channel::Stable)
        } else if s.eq("beta") {
            Ok(Channel::Beta)
        } else if s.eq("nightly") {
            Ok(Channel::Nightly)
        } else {
            Err("invalid channel")
        }
    }

    /// A string stands for a value exactly when it is that value's
    /// canonical string.
    pub proof fn parse_is_inverse_of_canonical(text: Seq<char>, value: Channel)
        ensures
            Self::parse(text) == Some(value) <==> text == value.canonical(),
    {
        reveal_strlit("stable");
        reveal_strlit("beta");
        reveal_strlit("nightly");
        assert("stable"@.len() == 6);
        assert("beta"@.len() == 4);
        assert("nightly"@.len() == 7);
    }

    /// Parsing the canonical string of a value gives the value back.
    pub proof fn parse_inverts_canonical(value: Channel)
        ensures
            Self::parse(value.canonical()) == Some(value),
    {
        Self::parse_is_inverse_of_canonical(value.canonical(), value);
    }

    /// No two values share a canonical string.
    pub proof fn canonical_is_injective(a: Channel, b: Channel)
        ensures
            a.canonical() == b.canonical() ==> a == b,
    {
        Self::parse_inverts_canonical(a);
        Self::parse_inverts_canonical(b);
    }
}

impl Default for Channel {
    fn default() -> (value: Self)
        ensures
            value == Channel::Stable,
    {
        Channel::Stable
    }
}

impl std::str::FromStr for Channel {
    type Err = &'static str;

    fn from_str(s: &str) -> (parsed: Result<Self, Self::Err>)
        ensures
            match parsed {
                Ok(value) => Channel::parse(s@) == Some(value),
                Err(message) => Channel::parse(s@) is None && message@ == "invalid channel"@,
            },
    {
        Channel::from_str(s)
    }
}

/// Assembly flavor.
///
/// The `Default` is `Att`
#[derive(Clone, Copy, Debug, PartialEq, Eq, Structural)]
pub enum AsmFlavor {
    /// AT&T assembly
    Att,
    /// Intel assembly
    Intel,
}

impl AsmFlavor {
    /// The string that stands for this value on the wire.
    pub open spec fn canonical(self) -> Seq<char> {
        match self {
            AsmFlavor::Att => "att"@,
            AsmFlavor::Intel => "intel"@,
        }
    }

    /// The value that a string stands for, if any.
    pub open spec fn parse(text: Seq<char>) -> Option<AsmFlavor> {
        if text == "att"@ {
            Some(AsmFlavor::Att)
        } else if text == "intel"@ {
            Some(AsmFlavor::Intel)
        } else {
            None
        }
    }

    /// The canonical string of this value.
    pub fn as_str(self) -> (text: &'static str)
        ensures
            text@ == self.canonical(),
    {
        match self {
            AsmFlavor::Att => "att",
            AsmFlavor::Intel => "intel",
        }
    }

    /// Reads a value from its canonical string. Any other string is
    /// rejected with the message `invalid assembly_flavor`.
    pub fn from_str(s: &str) -> (parsed: Result<AsmFlavor, &'static str>)
        ensures
            match parsed {
                Ok(value) => Self::parse(s@) == Some(value),
                Err(message) => Self::parse(s@) is None && message@ == "invalid assembly_flavor"@,
            },
    {
        if s.eq("att") {
            Ok(AsmFlavor::Att)
        } else if s.eq("intel") {
            Ok(AsmFlavor::Intel)
        } else {
            Err("invalid assembly_flavor")
        }
    }

    /// A string stands for a value exactly when it is that value's
    /// canonical string.
    pub proof fn parse_is_inverse_of_canonical(text: Seq<char>, value: AsmFlavor)
        ensures
            Self::parse(text) == Some(value) <==> text == value.canonical(),
    {
        reveal_strlit("att");
        reveal_strlit("intel");
        assert("att"@.len() == 3);
        assert("intel"@.len() == 5);
    }

    /// Parsing the canonical string of a value gives the value back.
    pub proof fn parse_inverts_canonical(value: AsmFlavor)
        ensures
            Self::parse(value.canonical()) == Some(value),
    {
        Self::parse_is_inverse_of_canonical(value.canonical(), value);
    }

    /// No two values share a canonical string.
    pub proof fn canonical_is_injective(a: AsmFlavor, b: AsmFlavor)
        ensures
            a.canonical() == b.canonical() ==> a == b,
    {
        Self::parse_inverts_canonical(a);
        Self::parse_inverts_canonical(b);
    }
}

impl Default for AsmFlavor {
    fn default() -> (value: Self)
        ensures
            value == AsmFlavor::Att,
    {
        AsmFlavor::Att
    }
}

impl std::str::FromStr for AsmFlavor {
    type Err = &'static str;

    fn from_str(s: &str) -> (parsed: Result<Self, Self::Err>)
        ensures
            match parsed {
                Ok(value) => AsmFlavor::parse(s@) == Some(value),
                Err(message) => AsmFlavor::parse(s@) is None
                    && message@ == "invalid assembly_flavor"@,
            },
    {
        AsmFlavor::from_str(s)
    }
}

/// Rustc backtrace options
///
/// The `Default` is `Auto`
#[derive(Clone, Copy, Debug, PartialEq, Eq, Structural)]
pub enum Backtrace {
    /// No backtraces
    Never,
    /// Always return backtraces
    Always,
    /// Detect when to return backtraces
    Auto,
}

impl Backtrace {
    /// The string that stands for this value on the wire.
    pub open spec fn canonical(self) -> Seq<char> {
        match self {
            Backtrace::Never => "0"@,
            Backtrace::Always => "1"@,
            Backtrace::Auto => "2"@,
        }
    }

    /// The canonical string of this value.
    pub fn as_str(self) -> (text: &'static str)
        ensures
            text@ == self.canonical(),
    {
        match self {
            Backtrace::Never => "0",
            Backtrace::Always => "1",
            Backtrace::Auto => "2",
        }
    }

    /// No two values share a canonical string.
    pub proof fn canonical_is_injective(a: Backtrace, b: Backtrace)
        ensures
            a.canonical() == b.canonical() ==> a == b,
    {
        reveal_strlit("0");
        reveal_strlit("1");
        reveal_strlit("2");
        assert("0"@[0] != "1"@[0]);
        assert("0"@[0] != "2"@[0]);
        assert("1"@[0] != "2"@[0]);
    }
}

impl Default for Backtrace {
    fn default() -> (value: Self)
        ensures
            value == Backtrace::Auto,
    {
        Backtrace::Auto
    }
}

/// Optimization levels for rustc
#[derive(Clone, Copy, Debug, PartialEq, Eq, Structural)]
pub enum OptLevel {
    /// No optimization
    O0,
    /// Basic optimization
    O1,
    /// Some optimization
    O2,
    /// All optimization
    O3,
}

impl OptLevel {
    /// The string that stands for this value on the wire.
    pub open spec fn canonical(self) -> Seq<char> {
        match self {
            OptLevel::O0 => "0"@,
            OptLevel::O1 => "1"@,
            OptLevel::O2 => "2"@,
            OptLevel::O3 => "3"@,
        }
    }

    /// The canonical string of this value.
    pub fn as_str(self) -> (text: &'static str)
        ensures
            text@ == self.canonical(),
    {
        match self {
            OptLevel::O0 => "0",
            OptLevel::O1 => "1",
            OptLevel::O2 => "2",
            OptLevel::O3 => "3",
        }
    }

    /// No two values share a canonical string.
    pub proof fn canonical_is_injective(a: OptLevel, b: OptLevel)
        ensures
            a.canonical() == b.canonical() ==> a == b,
    {
        reveal_strlit("0");
        reveal_strlit("1");
        reveal_strlit("2");
        reveal_strlit("3");
        assert("0"@[0] != "1"@[0]);
        assert("0"@[0] != "2"@[0]);
        assert("0"@[0] != "3"@[0]);
        assert("1"@[0] != "2"@[0]);
        assert("1"@[0] != "3"@[0]);
        assert("2"@[0] != "3"@[0]);
    }
}
} // verus!
