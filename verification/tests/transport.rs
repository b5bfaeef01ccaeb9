//! Behavioral tests for the framing, decoding and planning logic.

use r2pipe::error::Error;
use r2pipe::framing::{call_command, frame_command, process_result, process_tcp_result,
    trimmed_command};
use r2pipe::http::{http_body, http_request, R2PipeHttp};
use r2pipe::inherit::{inherited_fds, parse_i32, session_required};
use r2pipe::json::{decode_json_response, render_json, session_json, worker_response};
use r2pipe::native::{cstring_bytes, lib_filename, native_context_check, native_response,
    open_file_command, shared_lib_extension};
use r2pipe::pool::{plan_threads, worker_step, WorkerAction};
use r2pipe::spawn::{spawn_args, spawn_exepath, spawn_should_open, R2PipeSpawnOptions};

#[test]
fn echoed_reply_comes_back_verbatim() {
    // An engine reply framed as text plus one NUL decodes to exactly that text.
    let reply = b"test\0".to_vec();
    assert_eq!(process_result(reply).unwrap(), "test");
}

#[test]
fn empty_reply_is_an_error() {
    let r = process_result(Vec::new());
    assert!(matches!(r, Err(Error::EmptyResponse)));
}

#[test]
fn reply_that_is_not_utf8_is_an_error() {
    let r = process_result(vec![0xFF, 0xFE, 0x00]);
    assert!(matches!(r, Err(Error::Utf8)));
}

#[test]
fn reply_of_only_a_terminator_is_empty_text() {
    assert_eq!(process_result(vec![0x00]).unwrap(), "");
}

#[test]
fn command_is_trimmed_before_transmission() {
    assert_eq!(trimmed_command("  echo test \n"), "echo test");
    assert_eq!(trimmed_command("echo test"), "echo test");
    assert_eq!(trimmed_command(" \t\n "), "");
}

#[test]
fn framed_command_ends_with_newline() {
    assert_eq!(frame_command("echo test"), b"echo test\n".to_vec());
    assert_eq!(frame_command(""), b"\n".to_vec());
}

#[test]
fn tcp_reply_needs_no_terminator() {
    assert_eq!(process_tcp_result(b"test".to_vec()).unwrap(), "test");
    // Connection closed without any bytes: a valid, empty reply.
    assert_eq!(process_tcp_result(Vec::new()).unwrap(), "");
}

#[test]
fn call_prefixes_the_escape() {
    assert_eq!(call_command("px 32"), "\"\"px 32");
}

#[test]
fn structured_decode_of_empty_text_fails() {
    // Never a silent default: the empty reply is its own error.
    let r = decode_json_response("");
    assert!(matches!(r, Err(Error::EmptyResponse)));
}

#[test]
fn structured_decode_equals_independent_parse() {
    let text = "{\"arch\":\"x86\",\"bits\":64}";
    let through_pipe = decode_json_response(text).unwrap();
    let independent: serde_json::Value = serde_json::from_str(text).unwrap();
    assert_eq!(through_pipe, independent);
}

#[test]
fn structured_decode_of_non_json_fails() {
    let r = decode_json_response("not json at all");
    assert!(matches!(r, Err(Error::SerdeError(_))));
}

#[test]
fn rendered_result_is_compact_json() {
    let v = decode_json_response("{ \"a\": 1 }").unwrap();
    assert_eq!(render_json(&v).unwrap(), "{\"a\":1}");
}

#[test]
fn session_reply_drops_newlines_and_defaults_to_empty_object() {
    let v = session_json("{\n\"a\": 1\n}").unwrap();
    let expected: serde_json::Value = serde_json::from_str("{\"a\":1}").unwrap();
    assert_eq!(v, expected);
    // Only newlines: the cleaned text is empty and reads as the empty object.
    let empty = session_json("\n\n").unwrap();
    let empty_expected: serde_json::Value = serde_json::from_str("{}").unwrap();
    assert_eq!(empty, empty_expected);
}

#[test]
fn worker_result_is_the_rendered_reply() {
    assert_eq!(worker_response("{ \"a\": 1 }").unwrap(), "{\"a\":1}");
    assert!(matches!(worker_response(""), Err(Error::EmptyResponse)));
    assert!(matches!(worker_response("no"), Err(Error::SerdeError(_))));
}

#[test]
fn session_needs_a_path_or_an_open_session() {
    assert!(matches!(session_required(false, false), Err(Error::NoSession)));
    assert!(session_required(true, false).is_ok());
    assert!(session_required(false, true).is_ok());
}

#[test]
fn no_session_without_environment_values() {
    // Neither variable set: the distinguishable no-session outcome.
    let r = inherited_fds(None, None);
    assert!(matches!(r, Err(Error::NoSession)));
    // One missing is just as fatal.
    let r = inherited_fds(Some("3".to_owned()), None);
    assert!(matches!(r, Err(Error::NoSession)));
    // A value that is not a number gives no session either.
    let r = inherited_fds(Some("3".to_owned()), Some("four".to_owned()));
    assert!(matches!(r, Err(Error::NoSession)));
}

#[test]
fn session_fds_are_the_parsed_values() {
    let r = inherited_fds(Some("3".to_owned()), Some("4".to_owned()));
    assert_eq!(r.unwrap(), (3, 4));
}

#[test]
fn descriptor_parsing_matches_decimal_rules() {
    assert_eq!(parse_i32("42"), Some(42));
    assert_eq!(parse_i32("+7"), Some(7));
    assert_eq!(parse_i32("-8"), Some(-8));
    assert_eq!(parse_i32("2147483647"), Some(2147483647));
    assert_eq!(parse_i32("-2147483648"), Some(-2147483648));
    assert_eq!(parse_i32("2147483648"), None);
    assert_eq!(parse_i32("-2147483649"), None);
    assert_eq!(parse_i32("99999999999999999999"), None);
    assert_eq!(parse_i32(""), None);
    assert_eq!(parse_i32("+"), None);
    assert_eq!(parse_i32("-"), None);
    assert_eq!(parse_i32("1x"), None);
    assert_eq!(parse_i32(" 1"), None);
}

#[test]
fn mismatched_pool_lists_plan_nothing() {
    let names = vec!["/bin/ls", "/bin/true"];
    let opts = vec![None];
    let r = plan_threads(names, opts);
    assert!(matches!(r, Err(Error::ArgumentMismatch)));
}

#[test]
fn pool_plans_one_entry_per_pair() {
    let names = vec!["/bin/ls", "/bin/true"];
    let opts = vec![None, Some(R2PipeSpawnOptions::default())];
    let plans = plan_threads(names, opts).unwrap();
    assert_eq!(plans.len(), 2);
    assert_eq!(plans[0].id, 0);
    assert_eq!(plans[0].name, "/bin/ls");
    assert!(plans[0].opts.is_none());
    assert_eq!(plans[1].id, 1);
    assert_eq!(plans[1].name, "/bin/true");
    assert!(plans[1].opts.is_some());
}

#[test]
fn quit_sentinel_ends_the_worker_without_a_result() {
    assert!(matches!(worker_step("q".to_owned()), WorkerAction::Quit));
    match worker_step("ij".to_owned()) {
        WorkerAction::Run(c) => assert_eq!(c, "ij"),
        WorkerAction::Quit => panic!("an ordinary command must be run"),
    }
    // Even a command that merely contains the sentinel is run.
    assert!(matches!(worker_step("qq".to_owned()), WorkerAction::Run(_)));
}

#[test]
fn spawn_falls_back_to_the_open_session_only_without_a_name() {
    assert!(spawn_should_open("", true));
    assert!(!spawn_should_open("", false));
    assert!(!spawn_should_open("/bin/ls", true));
}

#[test]
fn spawn_uses_the_override_or_the_platform_default() {
    let opts = Some(R2PipeSpawnOptions {
        exepath: "/opt/engine/bin/r2".to_owned(),
        args: Vec::new(),
    });
    assert_eq!(spawn_exepath(&opts, false), "/opt/engine/bin/r2");
    assert_eq!(spawn_exepath(&None, false), "r2");
    assert_eq!(spawn_exepath(&None, true), "radare2.exe");
}

#[test]
fn spawn_arguments_keep_flag_extras_and_target_in_order() {
    let opts = Some(R2PipeSpawnOptions {
        exepath: String::new(),
        args: vec!["-2", "-e", "bin.cache=true"],
    });
    let argv = spawn_args("/bin/ls", &opts);
    assert_eq!(argv, vec!["-q0", "-2", "-e", "bin.cache=true", "/bin/ls"]);
    let bare = spawn_args("/bin/ls", &None);
    assert_eq!(bare, vec!["-q0", "/bin/ls"]);
}

#[test]
fn http_host_loses_its_scheme() {
    let t = R2PipeHttp::new("http://127.0.0.1:9090");
    assert_eq!(t.host(), "127.0.0.1:9090");
    let bare = R2PipeHttp::new("127.0.0.1:9090");
    assert_eq!(bare.host(), "127.0.0.1:9090");
}

#[test]
fn http_request_embeds_the_command_verbatim() {
    assert_eq!(http_request("i"), "GET /cmd/i HTTP/1.1\r\n");
    assert_eq!(http_request("px 32"), "GET /cmd/px 32 HTTP/1.1\r\n");
}

#[test]
fn http_body_is_everything_after_the_blank_line() {
    let reply = b"HTTP/1.1 200 OK\r\nContent-Type: text/plain\r\n\r\nhello".to_vec();
    assert_eq!(http_body(&reply).unwrap(), "hello");
}

#[test]
fn http_body_without_a_boundary_is_the_whole_buffer() {
    // The degenerate fallback: no blank line, nothing stripped, no error.
    let reply = b"no headers here".to_vec();
    assert_eq!(http_body(&reply).unwrap(), "no headers here");
    assert_eq!(http_body(&Vec::new()).unwrap(), "");
}

#[test]
fn http_body_takes_the_first_boundary() {
    let reply = b"a\r\n\r\nb\r\n\r\nc".to_vec();
    assert_eq!(http_body(&reply).unwrap(), "b\r\n\r\nc");
}

#[test]
fn shared_library_extension_follows_the_platform() {
    assert_eq!(shared_lib_extension(true, false), ".dll");
    assert_eq!(shared_lib_extension(true, true), ".dll");
    assert_eq!(shared_lib_extension(false, true), ".dylib");
    assert_eq!(shared_lib_extension(false, false), ".so");
}

#[test]
fn library_file_name_is_name_extension_suffix() {
    assert_eq!(lib_filename("libr_core", ".so", None), "libr_core.so");
    assert_eq!(lib_filename("libr_core", ".so", Some(".5")), "libr_core.so.5");
}

#[test]
fn native_text_is_nul_terminated_and_refuses_interior_nul() {
    assert_eq!(cstring_bytes("echo a").unwrap(), b"echo a\0".to_vec());
    let r = cstring_bytes("bad\0text");
    assert!(matches!(r, Err(Error::SharedLibraryError(_))));
}

#[test]
fn native_open_fails_on_a_zero_context() {
    assert!(matches!(
        native_context_check(0),
        Err(Error::SharedLibraryError(_))
    ));
    assert!(native_context_check(1).is_ok());
}

#[test]
fn native_reply_echo_has_no_terminator() {
    // A non-null reply comes back as its own text, a null reply is the
    // empty-response error.
    assert_eq!(native_response(Some("a".to_owned())).unwrap(), "a");
    assert!(matches!(native_response(None), Err(Error::EmptyResponse)));
}

#[test]
fn native_open_issues_the_open_file_command() {
    assert_eq!(open_file_command("malloc://512"), "o malloc://512");
}
