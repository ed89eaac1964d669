use ato_sandbox::supervisor::{
    PacketBuffer, SupervisorStep, WaitAction, WaitEvent, control_decision, shutdown_plan,
    wait_decision,
};
use ato_sandbox::output::{OutputSession, MAX_SENSIBLE_OUTPUT_SIZE};
use ato_sandbox::response::{ChildStatus, ChildUsage, StreamResponse, done_response, status_fields};
use ato_sandbox::request::{ControlMessage, Error};
use ato_sandbox::gateway::{CloseAction, close_action, normal_close_code, route_is_execute};

#[test]
fn timeout_finishes_with_timed_out_set() {
    assert!(matches!(
        wait_decision(&WaitEvent::Timeout),
        Ok(WaitAction::Finish { timed_out: true })
    ));
}

#[test]
fn child_exit_finishes_without_timeout() {
    assert!(matches!(
        wait_decision(&WaitEvent::ChildExited),
        Ok(WaitAction::Finish { timed_out: false })
    ));
}

#[test]
fn control_data_is_read_first() {
    assert!(matches!(wait_decision(&WaitEvent::ControlReadable), Ok(WaitAction::ReadControl)));
}

#[test]
fn client_hangup_finishes_without_timeout() {
    assert!(matches!(
        wait_decision(&WaitEvent::ControlHup),
        Ok(WaitAction::Finish { timed_out: false })
    ));
}

#[test]
fn unexpected_poll_result_is_internal_error() {
    assert!(matches!(
        wait_decision(&WaitEvent::Unexpected),
        Err(Error::InternalError(_))
    ));
}

#[test]
fn kill_message_finishes_without_timeout() {
    assert!(matches!(
        control_decision(&ControlMessage::Kill),
        WaitAction::Finish { timed_out: false }
    ));
}

#[test]
fn shutdown_kills_cgroup_first_and_reports_last() {
    let plan = shutdown_plan();
    assert_eq!(plan.len(), 5);
    assert!(matches!(plan[0], SupervisorStep::KillCgroup));
    assert!(matches!(plan[1], SupervisorStep::SignalQuit));
    assert!(matches!(plan[2], SupervisorStep::JoinWorker));
    assert!(matches!(plan[3], SupervisorStep::Reap));
    assert!(matches!(plan[4], SupervisorStep::EmitDone));
}

#[test]
fn status_fields_report_dispositions() {
    assert_eq!(status_fields(&ChildStatus::Exited(0)), ("exited".to_string(), 0));
    assert_eq!(
        status_fields(&ChildStatus::Signaled { signal: 9, core_dumped: false }),
        ("killed".to_string(), 9)
    );
    assert_eq!(
        status_fields(&ChildStatus::Signaled { signal: 11, core_dumped: true }),
        ("core_dumped".to_string(), 11)
    );
    assert_eq!(status_fields(&ChildStatus::Unknown), ("unknown".to_string(), -1));
}

fn usage() -> ChildUsage {
    ChildUsage {
        kernel: 10,
        user: 20,
        max_mem: 30,
        waits: 1,
        preemptions: 2,
        major_page_faults: 3,
        minor_page_faults: 4,
        input_ops: 5,
        output_ops: 6,
    }
}

#[test]
fn done_frame_for_clean_exit() {
    let frame = done_response(false, false, false, &ChildStatus::Exited(0), 1_000_000, &usage());
    match frame {
        StreamResponse::Done { timed_out, status_type, status_value, stdout_truncated, real, .. } => {
            assert!(!timed_out);
            assert!(!stdout_truncated);
            assert_eq!(status_type, "exited");
            assert_eq!(status_value, 0);
            assert_eq!(real, 1_000_000);
        },
        _ => panic!("expected a final frame"),
    }
}

#[test]
fn done_frame_for_timed_out_kill() {
    let frame = done_response(
        true,
        false,
        false,
        &ChildStatus::Signaled { signal: 9, core_dumped: false },
        2_000_000_000,
        &usage(),
    );
    match frame {
        StreamResponse::Done { timed_out, status_type, status_value, .. } => {
            assert!(timed_out);
            assert_eq!(status_type, "killed");
            assert_eq!(status_value, 9);
        },
        _ => panic!("expected a final frame"),
    }
}

#[test]
fn done_frame_for_client_kill() {
    let frame = done_response(
        false,
        false,
        false,
        &ChildStatus::Signaled { signal: 9, core_dumped: false },
        500_000_000,
        &usage(),
    );
    match frame {
        StreamResponse::Done { timed_out, status_type, status_value, .. } => {
            assert!(!timed_out);
            assert_eq!(status_type, "killed");
            assert_eq!(status_value, 9);
        },
        _ => panic!("expected a final frame"),
    }
}

#[test]
fn packet_buffer_hands_out_prefixes_in_order() {
    let mut buf = PacketBuffer::new();
    assert_eq!(buf.available(), 0);
    buf.refill(b"abcdef".to_vec());
    assert_eq!(buf.available(), 6);
    assert_eq!(buf.take(4), b"abcd".to_vec());
    assert_eq!(buf.take(4), b"ef".to_vec());
    assert_eq!(buf.available(), 0);
    buf.refill(b"gh".to_vec());
    assert_eq!(buf.take(10), b"gh".to_vec());
}

#[test]
fn output_session_passes_small_chunks_through() {
    let mut s = OutputSession::new(MAX_SENSIBLE_OUTPUT_SIZE);
    let out = s.on_stdout_chunk(b"hello\n".to_vec());
    assert_eq!(out, Some(b"hello\n".to_vec()));
    let err = s.on_stderr_chunk(b"warn".to_vec());
    assert_eq!(err, Some(b"warn".to_vec()));
    assert!(s.stdout.open && s.stderr.open);
    let (so, se) = s.finish();
    assert!(!so && !se);
    assert!(s.done_sent);
}

#[test]
fn one_mebibyte_truncates_to_exactly_the_threshold() {
    let mut s = OutputSession::new(MAX_SENSIBLE_OUTPUT_SIZE);
    let chunk = vec![b'x'; 4096];
    let mut written: usize = 0;
    let mut forwarded: usize = 0;
    while written < 1024 * 1024 {
        if !s.stdout.open {
            break;
        }
        if let Some(out) = s.on_stdout_chunk(chunk.clone()) {
            forwarded += out.len();
        }
        written += chunk.len();
    }
    assert_eq!(forwarded, MAX_SENSIBLE_OUTPUT_SIZE);
    assert!(s.stdout.truncated);
    assert!(!s.stdout.open);
    assert!(!s.stderr.truncated);
    let (so, se) = s.finish();
    assert!(so);
    assert!(!se);
}

#[test]
fn truncation_boundary_is_exact() {
    let mut s = OutputSession::new(8);
    assert_eq!(s.on_stdout_chunk(b"12345678".to_vec()), Some(b"12345678".to_vec()));
    assert!(s.stdout.open && !s.stdout.truncated);
    assert_eq!(s.on_stdout_chunk(b"9".to_vec()), None);
    assert!(!s.stdout.open && s.stdout.truncated);
    assert_eq!(s.stdout.forwarded, 8);
}

#[test]
fn truncating_chunk_is_trimmed() {
    let mut s = OutputSession::new(4);
    assert_eq!(s.on_stdout_chunk(b"abcdef".to_vec()), Some(b"abcd".to_vec()));
    assert!(s.stdout.truncated);
    assert_eq!(s.stdout.forwarded, 4);
}

#[test]
fn hangup_closes_stream_without_truncation() {
    let mut s = OutputSession::new(16);
    s.on_stdout_hup();
    assert!(!s.stdout.open && !s.stdout.truncated);
    assert!(s.stderr.open);
}

#[test]
fn close_actions_match_error_taxonomy() {
    assert!(matches!(close_action(&Error::ClientWentAway), CloseAction::CloseQuietly));
    match close_action(&Error::TooLarge(70000)) {
        CloseAction::CloseWith { code, reason } => {
            assert_eq!(code, 1009);
            assert_eq!(reason, "received message of size 70000, greater than size limit 65536");
        },
        _ => panic!("expected a close frame"),
    }
    match close_action(&Error::UnsupportedData) {
        CloseAction::CloseWith { code, reason } => {
            assert_eq!(code, 1003);
            assert_eq!(reason, "expected a binary message");
        },
        _ => panic!("expected a close frame"),
    }
    match close_action(&Error::PolicyViolation("argument contains null byte".to_string())) {
        CloseAction::CloseWith { code, reason } => {
            assert_eq!(code, 1008);
            assert_eq!(reason, "invalid request: argument contains null byte");
        },
        _ => panic!("expected a close frame"),
    }
    match close_action(&Error::InternalError("error polling".to_string())) {
        CloseAction::CloseWith { code, reason } => {
            assert_eq!(code, 1011);
            assert_eq!(reason, "error polling");
        },
        _ => panic!("expected a close frame"),
    }
    assert_eq!(normal_close_code(), 1000);
}

#[test]
fn only_the_execute_route_is_served() {
    assert!(route_is_execute(&"/api/v1/ws/execute".to_string()));
    assert!(!route_is_execute(&"/api/v1/ws/run".to_string()));
    assert!(!route_is_execute(&"/".to_string()));
}
