//! One request's life at the model level: decode, validate, stream, finish.

use ato_sandbox::codec::{decode_request, encode_request};
use ato_sandbox::output::{OutputSession, MAX_SENSIBLE_OUTPUT_SIZE};
use ato_sandbox::request::{Language, Request, validate};
use ato_sandbox::response::{done_response, ChildStatus, ChildUsage, StreamResponse};

#[test]
fn echo_request_runs_through_the_model() {
    // The wire carries a request for the echo language.
    let sent = Request {
        language: "echo".to_string(),
        code: b"hello\n".to_vec(),
        input: b"".to_vec(),
        arguments: vec![],
        options: vec![],
        timeout: 5,
    };
    let bytes = encode_request(&sent);
    let request = decode_request(&bytes).unwrap();

    // Validation resolves the language.
    let catalog = vec![("echo".to_string(), Language { image: "tools/echo:1".to_string() })];
    let language = validate(&request, &catalog).unwrap();
    assert_eq!(language.image, "tools/echo:1");

    // The runner cats the code file; the supervisor forwards one chunk.
    let mut session = OutputSession::new(MAX_SENSIBLE_OUTPUT_SIZE);
    let emitted = session.on_stdout_chunk(b"hello\n".to_vec()).unwrap();
    assert_eq!(emitted, b"hello\n".to_vec());
    session.on_stdout_hup();
    session.on_stderr_hup();

    // The child exits cleanly; the final frame closes the session.
    let (stdout_truncated, stderr_truncated) = session.finish();
    assert!(!stdout_truncated && !stderr_truncated);
    let usage = ChildUsage {
        kernel: 0,
        user: 0,
        max_mem: 1024,
        waits: 0,
        preemptions: 0,
        major_page_faults: 0,
        minor_page_faults: 0,
        input_ops: 0,
        output_ops: 0,
    };
    let frame = done_response(
        false,
        stdout_truncated,
        stderr_truncated,
        &ChildStatus::Exited(0),
        42,
        &usage,
    );
    match frame {
        StreamResponse::Done { timed_out, status_type, status_value, .. } => {
            assert!(!timed_out);
            assert_eq!(status_type, "exited");
            assert_eq!(status_value, 0);
        },
        _ => panic!("expected the final frame"),
    }
}
