//! Sandboxed code execution service: the verified core.
//!
//! The library holds the decision logic of a two-tier service that runs
//! untrusted programs inside short-lived Linux containers: request
//! validation, the wire codec for request, control and output frames, the
//! construction plans for the container (cgroup, namespaces, id maps,
//! filesystem, loopback network, capabilities, resource limits), and the
//! supervisor's multiplexing and output-accounting state machines. The
//! unverified binary around it performs the actual syscalls and I/O.

use vstd::prelude::*;

pub mod trusted;
pub mod numfmt;
pub mod hexid;
pub mod request;
pub mod response;
pub mod records;
pub mod output;
pub mod supervisor;
pub mod plans;
pub mod cgroup;
pub mod paths;
pub mod fsplan;
pub mod netmsg;
pub mod gateway;
pub mod codec;

verus! {

#[allow(non_upper_case_globals)]
pub const KiB: u64 = 1024;

#[allow(non_upper_case_globals)]
pub const MiB: u64 = 1024 * 1024;

/// Largest inbound client message the service accepts, in bytes.
pub const MAX_REQUEST_SIZE: usize = 64 * 1024;

/// Size of a pipe packet: a packet-mode write of at most this many bytes is
/// never torn, so every encoded output frame must stay within it.
pub const PIPE_BUF: usize = 4096;

/// How many bytes the output worker reads from a child pipe at a time. Kept
/// under `PIPE_BUF` less the frame overhead, so that one read always encodes
/// into a single pipe packet.
pub const OUTPUT_BUF_SIZE: usize = 3840;

/// Close codes are sent to the client as `WEBSOCKET_BASE` plus one of the
/// small code constants below.
pub const WEBSOCKET_BASE: u16 = 1000;

pub const NORMAL: u8 = 0;

pub const UNSUPPORTED_DATA: u8 = 3;

pub const POLICY_VIOLATION: u8 = 8;

pub const TOO_LARGE: u8 = 9;

pub const INTERNAL_ERROR: u8 = 11;

/// Default wall-clock timeout in seconds, applied when a request does not
/// carry a `timeout` field.
pub fn default_timeout() -> (r: i32)
    ensures
        r == 60,
{
    60
}

} // verus!
