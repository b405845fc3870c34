use recess::compile::{DemangleAssembly, HideAssemblerDirectives, Target};
use recess::{clippy, compile, execute, lint};
use recess::{AsmFlavor, Channel, CrateType, MissingField, Mode};

#[test]
fn compile_builder_defaults() {
    assert_eq!(
        compile::Request::builder("foo").build().unwrap(),
        compile::Request {
            target: Target::Asm,
            assembly_flavor: None,
            demangle_assembly: DemangleAssembly::Demangle,
            hide_assembler_directives: HideAssemblerDirectives::Hide,
            channel: Channel::Stable,
            mode: Mode::Debug,
            edition: String::new(),
            crate_type: CrateType::Binary,
            tests: false,
            backtrace: false,
            code: String::from("foo"),
        }
    )
}

#[test]
fn execute_builder_defaults() {
    assert_eq!(
        execute::Request::builder("foo").build().unwrap(),
        execute::Request {
            channel: Channel::Stable,
            mode: Mode::Debug,
            crate_type: CrateType::Binary,
            tests: false,
            backtrace: false,
            code: String::from("foo"),
        }
    )
}

#[test]
fn clippy_builder_defaults() {
    assert_eq!(
        clippy::Request::builder("foo").build().unwrap(),
        clippy::Request { code: String::from("foo") }
    )
}

#[test]
fn compile_new_is_the_default_configuration() {
    assert_eq!(
        compile::Request::new("foo"),
        compile::Request::builder("foo").build().unwrap()
    );
    assert_eq!(compile::Request::default(), compile::Request::new(""));
}

#[test]
fn format_and_lint_requests_hold_their_code() {
    assert_eq!(recess::format::Request::new("fn main(){}").code, "fn main(){}");
    assert_eq!(lint::Request::new("fn main(){}").code, "fn main(){}");
    assert_eq!(recess::format::Request::default().code, "");
    assert_eq!(lint::Request::default().code, "");
}

#[test]
fn compile_builder_takes_every_override() {
    let mut builder = compile::RequestBuilder::default();
    builder
        .code("fn main() {}")
        .target(Target::Llvm)
        .assembly_flavor(Some(AsmFlavor::Intel))
        .demangle_assembly(DemangleAssembly::Mangle)
        .hide_assembler_directives(HideAssemblerDirectives::Show)
        .channel(Channel::Nightly)
        .mode(Mode::Release)
        .edition("2018")
        .crate_type(CrateType::Library)
        .tests(true)
        .backtrace(true);
    assert_eq!(
        builder.build().unwrap(),
        compile::Request {
            target: Target::Llvm,
            assembly_flavor: Some(AsmFlavor::Intel),
            demangle_assembly: DemangleAssembly::Mangle,
            hide_assembler_directives: HideAssemblerDirectives::Show,
            channel: Channel::Nightly,
            mode: Mode::Release,
            edition: String::from("2018"),
            crate_type: CrateType::Library,
            tests: true,
            backtrace: true,
            code: String::from("fn main() {}"),
        }
    )
}

#[test]
fn execute_builder_takes_every_override() {
    let mut builder = execute::Request::builder("fn main() {}");
    builder
        .channel(Channel::Beta)
        .mode(Mode::Release)
        .crate_type(CrateType::Library)
        .tests(true)
        .backtrace(true);
    assert_eq!(
        builder.build().unwrap(),
        execute::Request {
            channel: Channel::Beta,
            mode: Mode::Release,
            crate_type: CrateType::Library,
            tests: true,
            backtrace: true,
            code: String::from("fn main() {}"),
        }
    )
}

#[test]
fn code_first_and_code_by_setter_build_equal_requests() {
    let mut first = compile::Request::builder("fn main() {}");
    first.target(Target::Mir).channel(Channel::Nightly);

    let mut later = compile::RequestBuilder::default();
    later.target(Target::Mir).code("fn main() {}").channel(Channel::Nightly);

    assert_eq!(first.build().unwrap(), later.build().unwrap());

    let mut first = execute::Request::builder("fn main() {}");
    first.mode(Mode::Release).tests(true);

    let mut later = execute::RequestBuilder::default();
    later.mode(Mode::Release).tests(true).code("fn main() {}");

    assert_eq!(first.build().unwrap(), later.build().unwrap());

    let first = clippy::Request::builder("fn main() {}");
    let mut later = clippy::RequestBuilder::default();
    later.code("fn main() {}");
    assert_eq!(first.build().unwrap(), later.build().unwrap());
}

#[test]
fn setting_a_field_twice_keeps_the_last_value() {
    let mut builder = compile::Request::builder("first");
    builder
        .channel(Channel::Beta)
        .channel(Channel::Nightly)
        .code("second")
        .assembly_flavor(Some(AsmFlavor::Att))
        .assembly_flavor(None);
    let request = builder.build().unwrap();
    assert_eq!(request.channel, Channel::Nightly);
    assert_eq!(request.code, "second");
    assert_eq!(request.assembly_flavor, None);
}

#[test]
fn setters_leave_other_fields_alone() {
    let mut builder = execute::Request::builder("code");
    builder.crate_type(CrateType::Library);
    let request = builder.build().unwrap();
    assert_eq!(request.crate_type, CrateType::Library);
    assert_eq!(request.channel, Channel::Stable);
    assert_eq!(request.mode, Mode::Debug);
    assert!(!request.tests);
    assert!(!request.backtrace);
    assert_eq!(request.code, "code");
}

#[test]
fn build_without_code_names_the_missing_field() {
    assert_eq!(
        compile::RequestBuilder::default().build(),
        Err(MissingField { field: "code" })
    );
    assert_eq!(
        execute::RequestBuilder::default().build(),
        Err(MissingField { field: "code" })
    );
    assert_eq!(
        clippy::RequestBuilder::default().build(),
        Err(MissingField { field: "code" })
    );

    let mut builder = compile::RequestBuilder::default();
    builder.channel(Channel::Beta).edition("2018");
    assert_eq!(builder.build(), Err(MissingField { field: "code" }));
}

#[test]
fn a_builder_can_build_more_than_once() {
    let mut builder = execute::Request::builder("a");
    let first = builder.build().unwrap();
    builder.code("b");
    let second = builder.build().unwrap();
    assert_eq!(first.code, "a");
    assert_eq!(second.code, "b");
}
