//! Outbound frames: chunks of the child's stdout and stderr while it runs,
//! and a single final `Done` frame carrying the exit disposition and
//! resource statistics.

use vstd::prelude::*;
use vstd::string::StringExecFns;

verus! {

/// One frame written to the client stream.
pub enum StreamResponse {
    Stdout(Vec<u8>),
    Stderr(Vec<u8>),
    Done {
        timed_out: bool,
        stdout_truncated: bool,
        stderr_truncated: bool,
        status_type: String,
        status_value: i32,
        real: i64,
        kernel: i64,
        user: i64,
        max_mem: i64,
        waits: i64,
        preemptions: i64,
        major_page_faults: i64,
        minor_page_faults: i64,
        input_ops: i64,
        output_ops: i64,
    },
}

/// The mathematical shape of a frame, used by the supervisor's ghost frame
/// log and by the codec's encoding functions.
pub enum FrameModel {
    Stdout(Seq<u8>),
    Stderr(Seq<u8>),
    Done,
}

impl StreamResponse {
    /// The frame's model: output chunks keep their bytes, `Done` only its tag.
    pub open spec fn model(&self) -> FrameModel {
        match self {
            StreamResponse::Stdout(b) => FrameModel::Stdout(b@),
            StreamResponse::Stderr(b) => FrameModel::Stderr(b@),
            StreamResponse::Done { .. } => FrameModel::Done,
        }
    }
}

/// How the child ended, as reported by the final wait: a normal exit code, a
/// fatal signal (with or without a core dump), or something unexpected.
#[derive(Debug)]
pub enum ChildStatus {
    Exited(i32),
    Signaled { signal: i32, core_dumped: bool },
    Unknown,
}

/// Resource statistics of the reaped child and its descendants, in the units
/// the final frame reports (times in nanoseconds).
#[derive(Debug, Clone, Copy)]
pub struct ChildUsage {
    pub kernel: i64,
    pub user: i64,
    pub max_mem: i64,
    pub waits: i64,
    pub preemptions: i64,
    pub major_page_faults: i64,
    pub minor_page_faults: i64,
    pub input_ops: i64,
    pub output_ops: i64,
}

/// The `status_type` string a disposition is reported under.
pub open spec fn status_type_chars(status: ChildStatus) -> Seq<char> {
    match status {
        ChildStatus::Exited(_) => "exited"@,
        ChildStatus::Signaled { core_dumped: false, .. } => "killed"@,
        ChildStatus::Signaled { core_dumped: true, .. } => "core_dumped"@,
        ChildStatus::Unknown => "unknown"@,
    }
}

/// The `status_value` a disposition is reported under: the exit code, the
/// signal number, or -1 when the disposition is unexpected.
pub open spec fn status_value_of(status: ChildStatus) -> i32 {
    match status {
        ChildStatus::Exited(c) => c,
        ChildStatus::Signaled { signal, .. } => signal,
        ChildStatus::Unknown => -1i32,
    }
}

/// Renders a disposition as the (`status_type`, `status_value`) pair the
/// final frame carries.
pub fn status_fields(status: &ChildStatus) -> (r: (String, i32))
    ensures
        r.0@ == status_type_chars(*status),
        r.1 == status_value_of(*status),
{
    match status {
        ChildStatus::Exited(c) => (String::from_str("exited"), *c),
        ChildStatus::Signaled { signal, core_dumped: false } => (
            String::from_str("killed"),
            *signal,
        ),
        ChildStatus::Signaled { signal, core_dumped: true } => (
            String::from_str("core_dumped"),
            *signal,
        ),
        ChildStatus::Unknown => (String::from_str("unknown"), -1),
    }
}

/// Builds the final frame from the wait disposition, the flags gathered
/// during multiplexing, the measured wall-clock time and the child usage.
pub fn done_response(
    timed_out: bool,
    stdout_truncated: bool,
    stderr_truncated: bool,
    status: &ChildStatus,
    real_ns: i64,
    usage: &ChildUsage,
) -> (r: StreamResponse)
    ensures
        r matches StreamResponse::Done {
            timed_out: t,
            stdout_truncated: so,
            stderr_truncated: se,
            status_type,
            status_value,
            real: rn,
            kernel,
            user,
            max_mem,
            waits,
            preemptions,
            major_page_faults,
            minor_page_faults,
            input_ops,
            output_ops,
        } && t == timed_out && so == stdout_truncated && se == stderr_truncated && status_type@
            == status_type_chars(*status) && status_value == status_value_of(*status) && rn == real_ns
            && kernel == usage.kernel && user == usage.user && max_mem == usage.max_mem && waits
            == usage.waits && preemptions == usage.preemptions && major_page_faults
            == usage.major_page_faults && minor_page_faults == usage.minor_page_faults && input_ops
            == usage.input_ops && output_ops == usage.output_ops,
{
    let (status_type, status_value) = status_fields(status);
    StreamResponse::Done {
        timed_out,
        stdout_truncated,
        stderr_truncated,
        status_type,
        status_value,
        real: real_ns,
        kernel: usage.kernel,
        user: usage.user,
        max_mem: usage.max_mem,
        waits: usage.waits,
        preemptions: usage.preemptions,
        major_page_faults: usage.major_page_faults,
        minor_page_faults: usage.minor_page_faults,
        input_ops: usage.input_ops,
        output_ops: usage.output_ops,
    }
}

} // verus!
