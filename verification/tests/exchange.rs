use futures::{Future, Stream};
use recess::client::{interpret, is_success, ClientError};
use recess::compile::Target;
use recess::wire::{assemble, encode, Datum, Member};
use recess::{clippy, compile, execute, lint};
use recess::{settle, AsmFlavor, Channel, Client, CodecCause, Failure, Mode, Outgoing, Reply};

fn arrived(status: u16, body: &str) -> Reply {
    Reply::Arrived { status, body: body.as_bytes().to_vec() }
}

fn text_of(outgoing: &Outgoing) -> String {
    String::from_utf8(outgoing.body.clone()).unwrap()
}

#[test]
fn execute_reply_is_decoded() {
    let end = settle::<execute::Response>(arrived(
        200,
        "{\"success\":true,\"stdout\":\"1\\n\",\"stderr\":\"\"}",
    ));
    let response = end.unwrap();
    assert_eq!(
        response,
        execute::Response { success: true, stdout: String::from("1\n"), stderr: String::new() }
    );
}

#[test]
fn compile_and_format_replies_carry_code() {
    let body = "{\"success\":false,\"code\":\"mov eax, 1\",\"stdout\":\"out\",\"stderr\":\"err\"}";
    assert_eq!(
        settle::<compile::Response>(arrived(200, body)).unwrap(),
        compile::Response {
            success: false,
            code: String::from("mov eax, 1"),
            stdout: String::from("out"),
            stderr: String::from("err"),
        }
    );
    assert_eq!(
        settle::<recess::format::Response>(arrived(201, body)).unwrap(),
        recess::format::Response {
            success: false,
            code: String::from("mov eax, 1"),
            stdout: String::from("out"),
            stderr: String::from("err"),
        }
    );
}

#[test]
fn lint_and_clippy_replies_are_decoded() {
    let body = "{ \"stderr\": \"warning\", \"stdout\": \"\", \"success\": true, \"more\": [1, 2] }";
    assert_eq!(
        settle::<lint::Response>(arrived(200, body)).unwrap(),
        lint::Response { success: true, stdout: String::new(), stderr: String::from("warning") }
    );
    assert_eq!(
        settle::<clippy::Response>(arrived(299, body)).unwrap(),
        clippy::Response { success: true, stdout: String::new(), stderr: String::from("warning") }
    );
}

#[test]
fn refusal_becomes_a_fault_with_status_and_message() {
    let end = settle::<execute::Response>(arrived(400, "{\"error\":\"invalid channel\"}"));
    match end {
        Err(Failure::Fault { status, message }) => {
            assert_eq!(status, 400);
            assert_eq!(message, "invalid channel");
        }
        other => panic!("not a fault: {:?}", other),
    }
}

#[test]
fn refusal_is_read_whatever_the_reply_type() {
    let end = settle::<compile::Response>(arrived(500, "{\"error\":\"boom\",\"success\":true}"));
    assert!(matches!(
        end,
        Err(Failure::Fault { status: 500, ref message }) if message == "boom"
    ));
}

#[test]
fn body_that_is_not_json_is_a_codec_failure() {
    let end = settle::<execute::Response>(arrived(200, "<html>not json</html>"));
    assert!(matches!(end, Err(Failure::Codec(CodecCause::Syntax(_)))));

    let end = settle::<execute::Response>(arrived(200, ""));
    assert!(matches!(end, Err(Failure::Codec(CodecCause::Syntax(_)))));

    let end = settle::<execute::Response>(arrived(503, "Service Unavailable"));
    assert!(matches!(end, Err(Failure::Codec(CodecCause::Syntax(_)))));

    let end = settle::<execute::Response>(arrived(
        200,
        "{\"success\":true,\"stdout\":\"\",\"stderr\":\"\"} trailing",
    ));
    assert!(matches!(end, Err(Failure::Codec(CodecCause::Syntax(_)))));
}

#[test]
fn reply_of_the_wrong_shape_is_a_codec_failure() {
    let end = settle::<execute::Response>(arrived(200, "{\"stdout\":\"\",\"stderr\":\"\"}"));
    assert!(matches!(end, Err(Failure::Codec(CodecCause::Shape("success")))));

    let end = settle::<execute::Response>(arrived(
        200,
        "{\"success\":\"true\",\"stdout\":\"\",\"stderr\":\"\"}",
    ));
    assert!(matches!(end, Err(Failure::Codec(CodecCause::Shape("success")))));

    let end = settle::<execute::Response>(arrived(200, "{\"success\":true,\"stdout\":1}"));
    assert!(matches!(end, Err(Failure::Codec(CodecCause::Shape("stdout")))));

    let end = settle::<execute::Response>(arrived(
        200,
        "{\"success\":true,\"stdout\":\"\",\"stderr\":null}",
    ));
    assert!(matches!(end, Err(Failure::Codec(CodecCause::Shape("stderr")))));

    let end = settle::<compile::Response>(arrived(
        200,
        "{\"success\":true,\"stdout\":\"\",\"stderr\":\"\"}",
    ));
    assert!(matches!(end, Err(Failure::Codec(CodecCause::Shape("code")))));

    let end = settle::<execute::Response>(arrived(200, "[true, \"\", \"\"]"));
    assert!(matches!(end, Err(Failure::Codec(CodecCause::Shape("success")))));

    let end = settle::<execute::Response>(arrived(200, "{\"error\":\"invalid channel\"}"));
    assert!(matches!(end, Err(Failure::Codec(CodecCause::Shape("success")))));
}

#[test]
fn refusal_of_the_wrong_shape_is_a_codec_failure() {
    let end = settle::<execute::Response>(arrived(
        404,
        "{\"success\":true,\"stdout\":\"\",\"stderr\":\"\"}",
    ));
    assert!(matches!(end, Err(Failure::Codec(CodecCause::Shape("error")))));

    let end = settle::<execute::Response>(arrived(400, "{\"error\":400}"));
    assert!(matches!(end, Err(Failure::Codec(CodecCause::Shape("error")))));

    let end = settle::<execute::Response>(arrived(400, "\"invalid channel\""));
    assert!(matches!(end, Err(Failure::Codec(CodecCause::Shape("error")))));
}

#[test]
fn success_range_is_two_hundred_to_two_hundred_ninety_nine() {
    assert!(!is_success(0));
    assert!(!is_success(199));
    assert!(is_success(200));
    assert!(is_success(204));
    assert!(is_success(299));
    assert!(!is_success(300));
    assert!(!is_success(404));
    assert!(!is_success(u16::MAX));

    let ok = "{\"success\":true,\"stdout\":\"\",\"stderr\":\"\",\"error\":\"both\"}";
    assert!(settle::<execute::Response>(arrived(299, ok)).is_ok());
    assert!(matches!(
        settle::<execute::Response>(arrived(300, ok)),
        Err(Failure::Fault { status: 300, .. })
    ));
    assert!(matches!(
        settle::<execute::Response>(arrived(199, ok)),
        Err(Failure::Fault { status: 199, .. })
    ));
}

#[test]
fn failed_exchange_is_a_transport_failure() {
    let (sender, body) = hyper::Body::channel();
    sender.abort();
    let cause = body.concat2().wait().unwrap_err();
    let said = cause.to_string();

    let end = settle::<execute::Response>(Reply::Failed(cause));
    match end {
        Err(Failure::Http(kept)) => assert_eq!(kept.to_string(), said),
        other => panic!("not a transport failure: {:?}", other),
    }
}

#[test]
fn transport_error_converts_into_a_failure() {
    let (sender, body) = hyper::Body::channel();
    sender.abort();
    let cause = body.concat2().wait().unwrap_err();
    assert!(matches!(Failure::from(cause), Failure::Http(_)));
}

#[test]
fn interpret_takes_what_the_parser_made() {
    let doc = serde_json::from_str::<serde_json::Value>("{\"error\":\"no\"}");
    assert!(matches!(
        interpret::<execute::Response>(422, doc),
        Err(Failure::Fault { status: 422, ref message }) if message == "no"
    ));

    let doc = serde_json::from_str::<serde_json::Value>("{\"error\":");
    assert!(matches!(
        interpret::<execute::Response>(422, doc),
        Err(Failure::Codec(CodecCause::Syntax(_)))
    ));

    let doc = serde_json::from_str::<serde_json::Value>("{\"error\":\"kept\"}");
    assert_eq!(
        interpret::<ClientError>(200, doc).unwrap(),
        ClientError { error: String::from("kept") }
    );
}

#[test]
fn execute_request_goes_out_as_a_post_with_json() {
    let client = Client::new();
    let request = execute::Request::builder("fn main() {}").build().unwrap();
    let outgoing = client.execute(request).unwrap();
    assert_eq!(outgoing.method, "POST");
    assert_eq!(outgoing.url, "https://play.rust-lang.org/execute");
    assert_eq!(outgoing.content_type, "application/json");
    assert_eq!(
        text_of(&outgoing),
        "{\"channel\":\"stable\",\"mode\":\"debug\",\"crateType\":\"bin\",\"tests\":false,\
         \"backtrace\":false,\"code\":\"fn main() {}\"}"
    );
}

#[test]
fn compile_request_without_flavor_omits_the_key() {
    let client = Client::new();
    let outgoing = client.compile(compile::Request::new("foo")).unwrap();
    assert_eq!(outgoing.url, "https://play.rust-lang.org/compile");
    let text = text_of(&outgoing);
    assert_eq!(
        text,
        "{\"target\":\"asm\",\"demangleAssembly\":\"demangle\",\
         \"hideAssemblerDirectives\":\"hide\",\"channel\":\"stable\",\"mode\":\"debug\",\
         \"edition\":\"\",\"crateType\":\"bin\",\"tests\":false,\"backtrace\":false,\
         \"code\":\"foo\"}"
    );
    assert!(!text.contains("assemblyFlavor"));
    assert!(!text.contains("null"));

    let parsed: serde_json::Value = serde_json::from_str(&text).unwrap();
    assert!(parsed.get("assemblyFlavor").is_none());
    assert_eq!(parsed.as_object().unwrap().len(), 10);
}

#[test]
fn compile_request_with_flavor_writes_it_after_the_target() {
    let client = Client::new();
    let mut builder = compile::Request::builder("foo");
    builder
        .assembly_flavor(Some(AsmFlavor::Intel))
        .target(Target::Wasm)
        .channel(Channel::Nightly)
        .mode(Mode::Release)
        .edition("2018")
        .tests(true);
    let outgoing = client.compile(builder.build().unwrap()).unwrap();
    assert_eq!(
        text_of(&outgoing),
        "{\"target\":\"wasm\",\"assemblyFlavor\":\"intel\",\"demangleAssembly\":\"demangle\",\
         \"hideAssemblerDirectives\":\"hide\",\"channel\":\"nightly\",\"mode\":\"release\",\
         \"edition\":\"2018\",\"crateType\":\"bin\",\"tests\":true,\"backtrace\":false,\
         \"code\":\"foo\"}"
    );
}

#[test]
fn format_and_lint_requests_hold_only_code() {
    let client = Client::custom("http://localhost:8080");
    assert_eq!(client.host(), "http://localhost:8080");

    let outgoing = client.format(recess::format::Request::new("a")).unwrap();
    assert_eq!(outgoing.url, "http://localhost:8080/format");
    assert_eq!(text_of(&outgoing), "{\"code\":\"a\"}");

    let outgoing = client.lint(lint::Request::new("b")).unwrap();
    assert_eq!(outgoing.url, "http://localhost:8080/clippy");
    assert_eq!(text_of(&outgoing), "{\"code\":\"b\"}");

    let request = clippy::Request::builder("c").build().unwrap();
    let outgoing = client.request("/clippy", &request).unwrap();
    assert_eq!(outgoing.url, "http://localhost:8080/clippy");
    assert_eq!(outgoing.method, "POST");
    assert_eq!(outgoing.content_type, "application/json");
    assert_eq!(text_of(&outgoing), "{\"code\":\"c\"}");
}

#[test]
fn code_is_quoted_as_json() {
    let client = Client::new();
    let code = "fn main() { println!(\"{}\\t\", 1); }\n// caf\u{e9} \u{1}";
    let outgoing = client.format(recess::format::Request::new(code)).unwrap();
    assert_eq!(
        text_of(&outgoing),
        "{\"code\":\"fn main() { println!(\\\"{}\\\\t\\\", 1); }\\n// caf\u{e9} \\u0001\"}"
    );

    let parsed: serde_json::Value = serde_json::from_slice(&outgoing.body).unwrap();
    assert_eq!(parsed.get("code").and_then(|found| found.as_str()), Some(code));
}

#[test]
fn what_goes_out_can_be_read_back() {
    let client = Client::new();
    let mut builder = execute::Request::builder("let s = \"\\\"\";");
    builder.channel(Channel::Beta).backtrace(true);
    let outgoing = client.execute(builder.build().unwrap()).unwrap();
    let parsed: serde_json::Value = serde_json::from_slice(&outgoing.body).unwrap();
    assert_eq!(parsed.get("channel").and_then(|v| v.as_str()), Some("beta"));
    assert_eq!(parsed.get("mode").and_then(|v| v.as_str()), Some("debug"));
    assert_eq!(parsed.get("crateType").and_then(|v| v.as_str()), Some("bin"));
    assert_eq!(parsed.get("tests").and_then(|v| v.as_bool()), Some(false));
    assert_eq!(parsed.get("backtrace").and_then(|v| v.as_bool()), Some(true));
    assert_eq!(parsed.get("code").and_then(|v| v.as_str()), Some("let s = \"\\\"\";"));
}

#[test]
fn assemble_frames_and_joins() {
    assert_eq!(assemble(&Vec::new()), b"{}".to_vec());
    assert_eq!(assemble(&vec![b"\"a\":1".to_vec()]), b"{\"a\":1}".to_vec());
    assert_eq!(
        assemble(&vec![b"\"a\":1".to_vec(), b"\"b\":true".to_vec(), Vec::new()]),
        b"{\"a\":1,\"b\":true,}".to_vec()
    );
}

#[test]
fn encode_writes_members_in_order() {
    let list = vec![
        Member { name: "z", value: Datum::Flag(true) },
        Member { name: "a", value: Datum::Text("x\"y") },
        Member { name: "z", value: Datum::Flag(false) },
    ];
    assert_eq!(encode(&list).unwrap(), b"{\"z\":true,\"a\":\"x\\\"y\",\"z\":false}".to_vec());
    assert_eq!(encode(&Vec::new()).unwrap(), b"{}".to_vec());
}

#[test]
fn body_that_is_not_text_is_a_codec_failure() {
    let end = settle::<execute::Response>(Reply::Arrived { status: 200, body: vec![0xff, 0xfe] });
    assert!(matches!(end, Err(Failure::Codec(CodecCause::Syntax(_)))));

    let end = settle::<execute::Response>(Reply::Arrived {
        status: 200,
        body: b"{\"success\":true,\"stdout\":\"\xff\",\"stderr\":\"\"}".to_vec(),
    });
    assert!(matches!(end, Err(Failure::Codec(CodecCause::Syntax(_)))));

    let end = settle::<execute::Response>(arrived(200, "null"));
    assert!(matches!(end, Err(Failure::Codec(CodecCause::Shape("success")))));
}

#[test]
fn member_names_are_matched_exactly() {
    let end = settle::<execute::Response>(arrived(
        200,
        "{\"Success\":true,\"success \":true,\"stdout\":\"\",\"stderr\":\"\"}",
    ));
    assert!(matches!(end, Err(Failure::Codec(CodecCause::Shape("success")))));

    let end = settle::<execute::Response>(arrived(
        200,
        "{\"\\u0073uccess\":false,\"stdout\":\"\\u00e9\",\"stderr\":\"a\\\"b\"}",
    ));
    assert_eq!(
        end.unwrap(),
        execute::Response {
            success: false,
            stdout: String::from("\u{e9}"),
            stderr: String::from("a\"b"),
        }
    );
}
