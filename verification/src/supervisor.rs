//! The supervisor's multiplexing decisions: what a wakeup on the wait poll
//! means, the fixed order of shutdown actions, and the packet-mode buffer
//! that turns pipe reads back into whole client messages.

use vstd::prelude::*;
use vstd::string::StringExecFns;
use crate::request::{ControlMessage, Error};
use crate::PIPE_BUF;

verus! {

/// What the supervisor's single wait poll reported: the timeout ran out, the
/// child's pidfd became readable, the control channel has data or hung up,
/// or the poll returned something it never should.
#[derive(Debug)]
pub enum WaitEvent {
    Timeout,
    ChildExited,
    ControlReadable,
    ControlHup,
    Unexpected,
}

/// What the supervisor does next: finish the request (kill the cgroup, then
/// reap), recording whether the wall clock ran out, or first read a control
/// message from the client.
#[derive(Debug)]
pub enum WaitAction {
    Finish { timed_out: bool },
    ReadControl,
}

/// Decides the supervisor's next move from one wait-poll wakeup. Every
/// outcome but an unexpected poll result leads to finishing the request;
/// only a timeout records `timed_out`.
pub fn wait_decision(ev: &WaitEvent) -> (r: Result<WaitAction, Error>)
    ensures
        ev is Timeout ==> (r matches Ok(a) && a == (WaitAction::Finish { timed_out: true })),
        ev is ChildExited ==> (r matches Ok(a) && a == (WaitAction::Finish { timed_out: false })),
        ev is ControlReadable ==> (r matches Ok(a) && a is ReadControl),
        ev is ControlHup ==> (r matches Ok(a) && a == (WaitAction::Finish { timed_out: false })),
        ev is Unexpected ==> (r matches Err(e) && e matches Error::InternalError(m) && m@
            == "unexpected poll result"@),
{
    match ev {
        WaitEvent::Timeout => Ok(WaitAction::Finish { timed_out: true }),
        WaitEvent::ChildExited => Ok(WaitAction::Finish { timed_out: false }),
        WaitEvent::ControlReadable => Ok(WaitAction::ReadControl),
        WaitEvent::ControlHup => Ok(WaitAction::Finish { timed_out: false }),
        WaitEvent::Unexpected => {
            let mut m = String::new();
            m.append("unexpected poll result");
            assert(m@ =~= "unexpected poll result"@);
            Err(Error::InternalError(m))
        },
    }
}

/// Decides on a decoded control message: a `Kill` finishes the request at
/// the client's wish, which is not a timeout.
pub fn control_decision(m: &ControlMessage) -> (r: WaitAction)
    ensures
        r == (WaitAction::Finish { timed_out: false }),
{
    match m {
        ControlMessage::Kill => WaitAction::Finish { timed_out: false },
    }
}

/// The supervisor's shutdown actions once the wait poll has decided.
#[derive(Debug, PartialEq, Eq, Structural)]
pub enum SupervisorStep {
    KillCgroup,
    SignalQuit,
    JoinWorker,
    Reap,
    EmitDone,
}

/// The fixed shutdown order on every path out of the wait: kill the cgroup
/// first (so no descendant survives), wake the output worker and join it (so
/// residual bytes drain before the final frame), then reap the child and
/// emit `Done` last.
pub fn shutdown_plan() -> (r: Vec<SupervisorStep>)
    ensures
        r@ =~= seq![
            SupervisorStep::KillCgroup,
            SupervisorStep::SignalQuit,
            SupervisorStep::JoinWorker,
            SupervisorStep::Reap,
            SupervisorStep::EmitDone,
        ],
{
    let mut r: Vec<SupervisorStep> = Vec::new();
    r.push(SupervisorStep::KillCgroup);
    r.push(SupervisorStep::SignalQuit);
    r.push(SupervisorStep::JoinWorker);
    r.push(SupervisorStep::Reap);
    r.push(SupervisorStep::EmitDone);
    r
}

/// The unread remainder of the pipe packets read so far. The supervisor's
/// stdin is a packet-mode pipe: each kernel read returns at most one packet,
/// and a read must ask for at least `PIPE_BUF` bytes or the packet's tail
/// would be lost. This buffer holds a whole packet and hands out prefixes.
pub struct PacketBuffer {
    pub data: Vec<u8>,
}

impl PacketBuffer {
    pub open spec fn inv(&self) -> bool {
        self.data@.len() <= PIPE_BUF
    }

    /// An empty buffer, ready for the first packet.
    pub fn new() -> (r: Self)
        ensures
            r.inv(),
            r.data@.len() == 0,
    {
        PacketBuffer { data: Vec::new() }
    }

    /// How many bytes of the current packet are still unread.
    pub fn available(&self) -> (r: usize)
        ensures
            r == self.data@.len(),
    {
        self.data.len()
    }

    /// Stores one freshly read packet. Only an exhausted buffer may be
    /// refilled: refilling earlier would drop the rest of a packet.
    pub fn refill(&mut self, packet: Vec<u8>)
        requires
            old(self).inv(),
            old(self).data@.len() == 0,
            packet@.len() <= PIPE_BUF,
        ensures
            final(self).inv(),
            final(self).data@ == packet@,
    {
        self.data = packet;
    }

    /// Hands out up to `max` bytes from the front of the buffer, keeping the
    /// rest for the next call: packet bytes are consumed in order, none lost.
    pub fn take(&mut self, max: usize) -> (r: Vec<u8>)
        requires
            old(self).inv(),
        ensures
            final(self).inv(),
            r@ == old(self).data@.take(min_usize(max as int, old(self).data@.len() as int)),
            final(self).data@ == old(self).data@.skip(
                min_usize(max as int, old(self).data@.len() as int),
            ),
    {
        let n: usize = if max <= self.data.len() {
            max
        } else {
            self.data.len()
        };
        let mut r: Vec<u8> = Vec::new();
        let mut i: usize = 0;
        while i < n
            invariant
                i <= n <= self.data@.len(),
                r@ == self.data@.take(i as int),
            decreases n - i,
        {
            let b = self.data[i];
            r.push(b);
            i = i + 1;
            assert(r@ =~= self.data@.take(i as int));
        }
        let mut rest: Vec<u8> = Vec::new();
        let mut j: usize = n;
        while j < self.data.len()
            invariant
                n <= j <= self.data@.len(),
                rest@ == self.data@.subrange(n as int, j as int),
            decreases self.data@.len() - j,
        {
            let b = self.data[j];
            rest.push(b);
            j = j + 1;
            assert(rest@ =~= self.data@.subrange(n as int, j as int));
        }
        proof {
            assert(rest@ =~= self.data@.skip(n as int));
        }
        self.data = rest;
        r
    }
}

/// The smaller of two lengths.
pub open spec fn min_usize(a: int, b: int) -> int {
    if a <= b {
        a
    } else {
        b
    }
}

} // verus!
