use recess::compile::{DemangleAssembly, HideAssemblerDirectives, Target};
use recess::{AsmFlavor, Backtrace, Channel, CrateType, Mode, OptLevel};

#[test]
fn channel_strings_round_trip() {
    let all = [Channel::Stable, Channel::Beta, Channel::Nightly];
    let names = ["stable", "beta", "nightly"];
    for i in 0..all.len() {
        assert_eq!(all[i].as_str(), names[i]);
        assert_eq!(Channel::from_str(names[i]), Ok(all[i]));
        assert_eq!(names[i].parse::<Channel>(), Ok(all[i]));
    }
    assert_eq!(Channel::variants(), &names[..]);
}

#[test]
fn mode_strings_round_trip() {
    let all = [Mode::Debug, Mode::Release];
    let names = ["debug", "release"];
    for i in 0..all.len() {
        assert_eq!(all[i].as_str(), names[i]);
        assert_eq!(Mode::from_str(names[i]), Ok(all[i]));
        assert_eq!(names[i].parse::<Mode>(), Ok(all[i]));
    }
}

#[test]
fn crate_type_strings_round_trip() {
    let all = [CrateType::Binary, CrateType::Library];
    let names = ["bin", "lib"];
    for i in 0..all.len() {
        assert_eq!(all[i].as_str(), names[i]);
        assert_eq!(CrateType::from_str(names[i]), Ok(all[i]));
        assert_eq!(names[i].parse::<CrateType>(), Ok(all[i]));
    }
    assert_eq!(CrateType::variants(), &names[..]);
}

#[test]
fn target_strings_round_trip() {
    let all = [Target::Asm, Target::Llvm, Target::Mir, Target::Wasm];
    let names = ["asm", "llvm-ir", "mir", "wasm"];
    for i in 0..all.len() {
        assert_eq!(all[i].as_str(), names[i]);
        assert_eq!(Target::from_str(names[i]), Ok(all[i]));
        assert_eq!(names[i].parse::<Target>(), Ok(all[i]));
    }
    assert_eq!(Target::variants(), &names[..]);
}

#[test]
fn asm_flavor_strings_round_trip() {
    let all = [AsmFlavor::Att, AsmFlavor::Intel];
    let names = ["att", "intel"];
    for i in 0..all.len() {
        assert_eq!(all[i].as_str(), names[i]);
        assert_eq!(AsmFlavor::from_str(names[i]), Ok(all[i]));
        assert_eq!(names[i].parse::<AsmFlavor>(), Ok(all[i]));
    }
}

#[test]
fn demangle_strings_round_trip() {
    let all = [DemangleAssembly::Demangle, DemangleAssembly::Mangle];
    let names = ["demangle", "mangle"];
    for i in 0..all.len() {
        assert_eq!(all[i].as_str(), names[i]);
        assert_eq!(DemangleAssembly::from_str(names[i]), Ok(all[i]));
        assert_eq!(names[i].parse::<DemangleAssembly>(), Ok(all[i]));
    }
}

#[test]
fn hide_directives_strings_round_trip() {
    let all = [HideAssemblerDirectives::Hide, HideAssemblerDirectives::Show];
    let names = ["hide", "show"];
    for i in 0..all.len() {
        assert_eq!(all[i].as_str(), names[i]);
        assert_eq!(HideAssemblerDirectives::from_str(names[i]), Ok(all[i]));
        assert_eq!(names[i].parse::<HideAssemblerDirectives>(), Ok(all[i]));
    }
}

#[test]
fn backtrace_and_opt_level_have_distinct_strings() {
    assert_eq!(Backtrace::Never.as_str(), "0");
    assert_eq!(Backtrace::Always.as_str(), "1");
    assert_eq!(Backtrace::Auto.as_str(), "2");
    assert_eq!(OptLevel::O0.as_str(), "0");
    assert_eq!(OptLevel::O1.as_str(), "1");
    assert_eq!(OptLevel::O2.as_str(), "2");
    assert_eq!(OptLevel::O3.as_str(), "3");
}

#[test]
fn strings_outside_the_set_are_rejected() {
    assert_eq!(Channel::from_str("stale"), Err("invalid channel"));
    assert_eq!(Channel::from_str(""), Err("invalid channel"));
    assert_eq!(Channel::from_str("Stable"), Err("invalid channel"));
    assert_eq!(Channel::from_str("stable "), Err("invalid channel"));
    assert_eq!(Mode::from_str("fast"), Err("invalid mode"));
    assert_eq!(CrateType::from_str("binary"), Err("invalid crate_type"));
    assert_eq!(Target::from_str("llvm"), Err("invalid target"));
    assert_eq!(Target::from_str("llvm_ir"), Err("invalid target"));
    assert_eq!(AsmFlavor::from_str("at&t"), Err("invalid assembly_flavor"));
    assert_eq!(DemangleAssembly::from_str("de-mangle"), Err("invalid demangle_assembly"));
    assert_eq!(
        HideAssemblerDirectives::from_str("hidden"),
        Err("invalid hide_assembler_directives")
    );
    assert_eq!("nope".parse::<Channel>(), Err("invalid channel"));
}

#[test]
fn defaults_are_the_documented_ones() {
    assert_eq!(Channel::default(), Channel::Stable);
    assert_eq!(Mode::default(), Mode::Debug);
    assert_eq!(CrateType::default(), CrateType::Binary);
    assert_eq!(AsmFlavor::default(), AsmFlavor::Att);
    assert_eq!(Backtrace::default(), Backtrace::Auto);
    assert_eq!(Target::default(), Target::Asm);
    assert_eq!(DemangleAssembly::default(), DemangleAssembly::Demangle);
    assert_eq!(HideAssemblerDirectives::default(), HideAssemblerDirectives::Hide);
}
