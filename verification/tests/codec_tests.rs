use ato_sandbox::codec::{
    decode_control, decode_request, encode_control, encode_frame, encode_request,
};
use ato_sandbox::request::{ControlMessage, Error, Request};
use ato_sandbox::response::StreamResponse;
use ato_sandbox::PIPE_BUF;

fn sample_request() -> Request {
    Request {
        language: "echo".to_string(),
        code: b"hello\n".to_vec(),
        input: b"".to_vec(),
        arguments: vec![b"-n".to_vec(), b"x y".to_vec()],
        options: vec![],
        timeout: 5,
    }
}

fn str32(s: &str) -> Vec<u8> {
    let mut v = vec![0xdb];
    v.extend_from_slice(&(s.len() as u32).to_be_bytes());
    v.extend_from_slice(s.as_bytes());
    v
}

fn bin32(b: &[u8]) -> Vec<u8> {
    let mut v = vec![0xc6];
    v.extend_from_slice(&(b.len() as u32).to_be_bytes());
    v.extend_from_slice(b);
    v
}

#[test]
fn request_round_trips_through_codec() {
    let r = sample_request();
    let bytes = encode_request(&r);
    let back = decode_request(&bytes).unwrap();
    assert_eq!(back.language, r.language);
    assert_eq!(back.code, r.code);
    assert_eq!(back.input, r.input);
    assert_eq!(back.arguments, r.arguments);
    assert_eq!(back.options, r.options);
    assert_eq!(back.timeout, r.timeout);
}

#[test]
fn encoded_request_bytes_are_canonical() {
    let r = Request {
        language: "e".to_string(),
        code: b"c".to_vec(),
        input: b"".to_vec(),
        arguments: vec![b"a".to_vec()],
        options: vec![],
        timeout: 60,
    };
    let mut expected = vec![0xdf, 0, 0, 0, 6];
    expected.extend(str32("language"));
    expected.extend(str32("e"));
    expected.extend(str32("code"));
    expected.extend(bin32(b"c"));
    expected.extend(str32("input"));
    expected.extend(bin32(b""));
    expected.extend(str32("arguments"));
    expected.extend(vec![0xdd, 0, 0, 0, 1]);
    expected.extend(bin32(b"a"));
    expected.extend(str32("options"));
    expected.extend(vec![0xdd, 0, 0, 0, 0]);
    expected.extend(str32("timeout"));
    expected.extend(vec![0xd2, 0, 0, 0, 60]);
    assert_eq!(encode_request(&r), expected);
}

#[test]
fn decode_applies_default_timeout_to_five_field_map() {
    let r = sample_request();
    let with_timeout = encode_request(&r);
    // Rewrite the map header to five entries and drop the timeout field.
    let timeout_field_len = str32("timeout").len() + 5;
    let mut five = with_timeout[..with_timeout.len() - timeout_field_len].to_vec();
    five[4] = 5;
    let back = decode_request(&five).unwrap();
    assert_eq!(back.timeout, 60);
    assert_eq!(back.language, "echo");
}

#[test]
fn decode_rejects_trailing_bytes() {
    let r = sample_request();
    let mut bytes = encode_request(&r);
    bytes.push(0);
    match decode_request(&bytes) {
        Err(Error::PolicyViolation(m)) => assert_eq!(m, "found extra data"),
        _ => panic!("expected policy violation"),
    }
}

#[test]
fn decode_rejects_garbage() {
    assert!(matches!(
        decode_request(&b"not a request".to_vec()),
        Err(Error::PolicyViolation(_))
    ));
    assert!(matches!(decode_request(&vec![]), Err(Error::PolicyViolation(_))));
}

#[test]
fn decode_accepts_negative_timeout_for_later_validation() {
    let mut r = sample_request();
    r.timeout = -3;
    let bytes = encode_request(&r);
    let back = decode_request(&bytes).unwrap();
    assert_eq!(back.timeout, -3);
}

#[test]
fn control_round_trips_and_has_exact_bytes() {
    let bytes = encode_control(&ControlMessage::Kill);
    assert_eq!(bytes, str32("Kill"));
    assert!(matches!(decode_control(&bytes), Ok(ControlMessage::Kill)));
}

#[test]
fn control_rejects_unknown_tags() {
    assert!(matches!(
        decode_control(&str32("Stop")),
        Err(Error::PolicyViolation(_))
    ));
    let mut trailing = str32("Kill");
    trailing.push(1);
    assert!(matches!(decode_control(&trailing), Err(Error::PolicyViolation(_))));
    assert!(matches!(decode_control(&vec![]), Err(Error::PolicyViolation(_))));
}

#[test]
fn stdout_frame_bytes_are_canonical() {
    let frame = StreamResponse::Stdout(b"hi".to_vec());
    let mut expected = vec![0xdf, 0, 0, 0, 1];
    expected.extend(str32("Stdout"));
    expected.extend(bin32(b"hi"));
    assert_eq!(encode_frame(&frame), expected);
}

#[test]
fn frames_fit_one_pipe_packet() {
    let chunk = StreamResponse::Stdout(vec![7u8; ato_sandbox::OUTPUT_BUF_SIZE]);
    assert!(encode_frame(&chunk).len() <= PIPE_BUF);
    let done = StreamResponse::Done {
        timed_out: false,
        stdout_truncated: false,
        stderr_truncated: false,
        status_type: "exited".to_string(),
        status_value: 0,
        real: 123456789,
        kernel: 1,
        user: 2,
        max_mem: 3,
        waits: 4,
        preemptions: 5,
        major_page_faults: 6,
        minor_page_faults: 7,
        input_ops: 8,
        output_ops: 9,
    };
    assert!(encode_frame(&done).len() <= PIPE_BUF);
}
