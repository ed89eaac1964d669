//! The loopback configuration, as data: the two rtnetlink requests the child
//! sends (add 127.0.0.1/8 to `lo`, then bring `lo` up), and the check every
//! reply must pass. The unverified child serializes these over an
//! `AF_NETLINK`/`NETLINK_ROUTE` socket.

use vstd::prelude::*;
use vstd::string::StringExecFns;
use crate::request::Error;

verus! {

/// Netlink message flags.
#[derive(Debug, PartialEq, Eq, Structural, Clone, Copy)]
pub struct NlFlags {
    pub request: bool,
    pub create: bool,
    pub excl: bool,
    pub ack: bool,
}

/// Which route attribute an address request carries.
#[derive(Debug, PartialEq, Eq, Structural, Clone, Copy)]
pub enum AddrAttrKind {
    Local,
    Address,
}

/// One route attribute: its wire length, kind, and address payload.
pub struct AddrAttr {
    pub rta_len: u16,
    pub kind: AddrAttrKind,
    pub payload: Vec<u8>,
}

/// The new-address request for the loopback interface.
pub struct AddrRequest {
    pub seq: u32,
    pub pid: u32,
    pub flags: NlFlags,
    pub family_inet: bool,
    pub prefix_len: u8,
    pub permanent: bool,
    pub scope: u8,
    pub if_index: i32,
    pub attrs: Vec<AddrAttr>,
}

/// The set-link request for the loopback interface.
pub struct LinkRequest {
    pub seq: u32,
    pub pid: u32,
    pub flags: NlFlags,
    pub family_unspecified: bool,
    pub hw_loopback: bool,
    pub up: bool,
    pub loopback: bool,
    pub change_mask: u32,
    pub if_index: i32,
}

/// The address scope of an address on the local host.
pub const RT_SCOPE_HOST: u8 = 254;

/// The first exchange: add 127.0.0.1/8 to the interface, permanent, host
/// scope, carried in both the `Local` and `Address` attributes, each 8 bytes
/// on the wire. Sent with sequence number 0 and Request|Create|Excl|Ack.
pub fn loopback_addr_request(pid: u32, if_index: i32) -> (r: AddrRequest)
    ensures
        r.seq == 0,
        r.pid == pid,
        r.flags == (NlFlags { request: true, create: true, excl: true, ack: true }),
        r.family_inet,
        r.prefix_len == 8,
        r.permanent,
        r.scope == RT_SCOPE_HOST,
        r.if_index == if_index,
        r.attrs@.len() == 2,
        r.attrs@[0].rta_len == 8 && r.attrs@[0].kind is Local && r.attrs@[0].payload@ == seq![
            127u8,
            0u8,
            0u8,
            1u8,
        ],
        r.attrs@[1].rta_len == 8 && r.attrs@[1].kind is Address && r.attrs@[1].payload@ == seq![
            127u8,
            0u8,
            0u8,
            1u8,
        ],
{
    let mut attrs: Vec<AddrAttr> = Vec::new();
    let mut local_payload: Vec<u8> = Vec::new();
    local_payload.push(127);
    local_payload.push(0);
    local_payload.push(0);
    local_payload.push(1);
    assert(local_payload@ =~= seq![127u8, 0u8, 0u8, 1u8]);
    let mut addr_payload: Vec<u8> = Vec::new();
    addr_payload.push(127);
    addr_payload.push(0);
    addr_payload.push(0);
    addr_payload.push(1);
    assert(addr_payload@ =~= seq![127u8, 0u8, 0u8, 1u8]);
    attrs.push(AddrAttr { rta_len: 8, kind: AddrAttrKind::Local, payload: local_payload });
    attrs.push(AddrAttr { rta_len: 8, kind: AddrAttrKind::Address, payload: addr_payload });
    AddrRequest {
        seq: 0,
        pid,
        flags: NlFlags { request: true, create: true, excl: true, ack: true },
        family_inet: true,
        prefix_len: 8,
        permanent: true,
        scope: RT_SCOPE_HOST,
        if_index,
        attrs,
    }
}

/// The second exchange: set the interface up. Unspecified address family,
/// loopback hardware type, flags Up|Loopback, every flag bit in the change
/// mask, sequence number 1, Request|Ack.
pub fn loopback_link_request(pid: u32, if_index: i32) -> (r: LinkRequest)
    ensures
        r.seq == 1,
        r.pid == pid,
        r.flags == (NlFlags { request: true, create: false, excl: false, ack: true }),
        r.family_unspecified,
        r.hw_loopback,
        r.up,
        r.loopback,
        r.change_mask == 0xFFFFFFFFu32,
        r.if_index == if_index,
{
    LinkRequest {
        seq: 1,
        pid,
        flags: NlFlags { request: true, create: false, excl: false, ack: true },
        family_unspecified: true,
        hw_loopback: true,
        up: true,
        loopback: true,
        change_mask: 0xFFFFFFFF,
        if_index,
    }
}

/// Checks one netlink reply: it must be an error-type message whose ack
/// payload carries error code 0. `ack_error` is the payload's error field,
/// or `None` when the payload is not an ack. Anything else aborts the
/// request with an internal error.
pub fn check_netlink_reply(is_error_type: bool, ack_error: Option<i32>) -> (r: Result<(), Error>)
    ensures
        r is Ok <==> (is_error_type && ack_error == Some(0i32)),
        r matches Err(e) ==> (e matches Error::InternalError(m) && m@
            == "unknown reply from netlink"@),
{
    if is_error_type {
        if let Some(code) = ack_error {
            if code == 0 {
                return Ok(());
            }
        }
    }
    let mut m = String::new();
    m.append("unknown reply from netlink");
    assert(m@ =~= "unknown reply from netlink"@);
    Err(Error::InternalError(m))
}

} // verus!
