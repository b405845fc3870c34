use recess::cli::{
    compile_request, compiled, execute_request, executed, formatted, src, Source, Transcript,
};
use recess::compile::Target;
use recess::{compile, execute};
use recess::{Channel, CrateType};

#[test]
fn dash_means_standard_input() {
    assert_eq!(src(String::from("-")), Source::StandardInput);
}

#[test]
fn anything_else_is_the_code_itself() {
    assert_eq!(src(String::from("fn main() {}")), Source::Literal(String::from("fn main() {}")));
    assert_eq!(src(String::new()), Source::Literal(String::new()));
    assert_eq!(src(String::from("--")), Source::Literal(String::from("--")));
    assert_eq!(src(String::from(" -")), Source::Literal(String::from(" -")));
    assert_eq!(src(String::from("\u{2212}")), Source::Literal(String::from("\u{2212}")));
}

#[test]
fn flags_override_only_their_own_options() {
    assert_eq!(
        execute_request("code", None, None),
        execute::Request::builder("code").build().unwrap()
    );
    let request = execute_request("code", Some(Channel::Nightly), Some(CrateType::Library));
    let mut expected = execute::Request::builder("code");
    expected.channel(Channel::Nightly).crate_type(CrateType::Library);
    assert_eq!(request, expected.build().unwrap());

    assert_eq!(compile_request("code", None, None, None), compile::Request::new("code"));
    let request = compile_request("code", Some(Target::Mir), None, Some(CrateType::Library));
    let mut expected = compile::Request::builder("code");
    expected.target(Target::Mir).crate_type(CrateType::Library);
    assert_eq!(request, expected.build().unwrap());
    let request = compile_request("code", None, Some(Channel::Beta), None);
    assert_eq!(request.channel, Channel::Beta);
    assert_eq!(request.target, Target::Asm);
}

#[test]
fn code_is_printed_before_output_and_errors_apart() {
    let transcript = compiled(compile::Response {
        success: true,
        code: String::from("code"),
        stdout: String::from("out"),
        stderr: String::from("err"),
    });
    assert_eq!(
        transcript,
        Transcript {
            out: vec![String::from("code"), String::from("out")],
            err: vec![String::from("err")],
        }
    );

    let transcript = formatted(recess::format::Response {
        success: true,
        code: String::from("code"),
        stdout: String::from("out"),
        stderr: String::from("err"),
    });
    assert_eq!(
        transcript,
        Transcript {
            out: vec![String::from("code"), String::from("out")],
            err: vec![String::from("err")],
        }
    );

    let transcript = executed(execute::Response {
        success: false,
        stdout: String::from("out"),
        stderr: String::from("err"),
    });
    assert_eq!(
        transcript,
        Transcript { out: vec![String::from("out")], err: vec![String::from("err")] }
    );
}
