use ato_sandbox::request::{Error, Language, Request, validate};
use ato_sandbox::records::{join_args, parse_records};
use ato_sandbox::numfmt::{u64_to_string, i64_to_string};
use ato_sandbox::hexid::{hex_of_bytes, random_id};
use ato_sandbox::default_timeout;

fn catalog() -> Vec<(String, Language)> {
    vec![
        ("echo".to_string(), Language { image: "tools/echo:1".to_string() }),
        ("sleep".to_string(), Language { image: "tools/sleep:1".to_string() }),
    ]
}

fn request(language: &str, timeout: i32) -> Request {
    Request {
        language: language.to_string(),
        code: b"hello\n".to_vec(),
        input: vec![],
        arguments: vec![],
        options: vec![],
        timeout,
    }
}

#[test]
fn default_timeout_is_sixty() {
    assert_eq!(default_timeout(), 60);
}

#[test]
fn validate_accepts_known_language() {
    let cat = catalog();
    let r = request("echo", 5);
    let l = validate(&r, &cat).unwrap();
    assert_eq!(l.image, "tools/echo:1");
}

#[test]
fn validate_rejects_timeout_zero() {
    let cat = catalog();
    let r = request("echo", 0);
    match validate(&r, &cat) {
        Err(Error::PolicyViolation(m)) => assert_eq!(m, "timeout not in range 1-60: 0"),
        _ => panic!("expected policy violation"),
    }
}

#[test]
fn validate_rejects_timeout_sixty_one() {
    let cat = catalog();
    let r = request("echo", 61);
    match validate(&r, &cat) {
        Err(Error::PolicyViolation(m)) => assert_eq!(m, "timeout not in range 1-60: 61"),
        _ => panic!("expected policy violation"),
    }
}

#[test]
fn validate_rejects_negative_timeout() {
    let cat = catalog();
    let r = request("echo", -7);
    match validate(&r, &cat) {
        Err(Error::PolicyViolation(m)) => assert_eq!(m, "timeout not in range 1-60: -7"),
        _ => panic!("expected policy violation"),
    }
}

#[test]
fn validate_rejects_null_byte_in_argument() {
    let cat = catalog();
    let mut r = request("echo", 5);
    r.arguments = vec![b"\x00bad".to_vec()];
    match validate(&r, &cat) {
        Err(Error::PolicyViolation(m)) => assert_eq!(m, "argument contains null byte"),
        _ => panic!("expected policy violation"),
    }
}

#[test]
fn validate_rejects_null_byte_in_option() {
    let cat = catalog();
    let mut r = request("echo", 5);
    r.options = vec![b"fine".to_vec(), b"not\x00fine".to_vec()];
    match validate(&r, &cat) {
        Err(Error::PolicyViolation(m)) => assert_eq!(m, "argument contains null byte"),
        _ => panic!("expected policy violation"),
    }
}

#[test]
fn validate_rejects_unknown_language() {
    let cat = catalog();
    let r = request("cobol", 5);
    match validate(&r, &cat) {
        Err(Error::PolicyViolation(m)) => assert_eq!(m, "no such language: cobol"),
        _ => panic!("expected policy violation"),
    }
}

#[test]
fn join_args_appends_null_after_each_entry() {
    let args = vec![b"ab".to_vec(), b"".to_vec(), b"c".to_vec()];
    assert_eq!(join_args(&args), b"ab\x00\x00c\x00".to_vec());
}

#[test]
fn join_args_of_nothing_is_empty() {
    let args: Vec<Vec<u8>> = vec![];
    assert_eq!(join_args(&args), Vec::<u8>::new());
}

#[test]
fn parse_records_inverts_join_args() {
    let args = vec![b"PATH=/usr/bin".to_vec(), b"HOME=/root".to_vec()];
    let joined = join_args(&args);
    assert_eq!(parse_records(&joined), Some(args));
}

#[test]
fn parse_records_of_empty_block() {
    assert_eq!(parse_records(&vec![]), Some(vec![]));
}

#[test]
fn parse_records_rejects_unterminated_tail() {
    let bytes = b"A=1\x00B=2".to_vec();
    assert_eq!(parse_records(&bytes), None);
}

#[test]
fn decimal_rendering() {
    assert_eq!(u64_to_string(0), "0");
    assert_eq!(u64_to_string(65536), "65536");
    assert_eq!(u64_to_string(u64::MAX), "18446744073709551615");
    assert_eq!(i64_to_string(-1), "-1");
    assert_eq!(i64_to_string(i64::MIN), "-9223372036854775808");
    assert_eq!(i64_to_string(60), "60");
}

#[test]
fn hex_rendering() {
    assert_eq!(hex_of_bytes(&vec![0x00, 0xff, 0x10, 0xab]), "00ff10ab");
    assert_eq!(hex_of_bytes(&vec![]), "");
}

#[test]
fn random_id_shape() {
    let a = random_id();
    let b = random_id();
    assert_eq!(a.len(), 32);
    assert!(a.chars().all(|c| c.is_ascii_hexdigit() && !c.is_ascii_uppercase()));
    assert_ne!(a, b);
}
