//! The output worker's accounting: per-stream byte totals, truncation at a
//! fixed threshold, and a ghost log of every frame emitted. The log shows
//! that bytes of each stream are forwarded in order, that a truncated stream
//! has forwarded exactly the threshold, and that the `Done` frame, once
//! recorded, is the last frame of the session.

use vstd::prelude::*;
use crate::response::FrameModel;

verus! {

/// Per-stream output ceiling: bytes beyond it are silently dropped and the
/// stream is marked truncated.
pub const MAX_SENSIBLE_OUTPUT_SIZE: usize = 128 * 1024;

/// The payload a frame contributes to one stream (stderr when `stderr_side`,
/// stdout otherwise).
pub open spec fn frame_payload(f: FrameModel, stderr_side: bool) -> Seq<u8> {
    match f {
        FrameModel::Stdout(b) => if stderr_side {
            Seq::empty()
        } else {
            b
        },
        FrameModel::Stderr(b) => if stderr_side {
            b
        } else {
            Seq::empty()
        },
        FrameModel::Done => Seq::empty(),
    }
}

/// All bytes a frame log has carried for one stream, in emission order.
pub open spec fn stream_bytes(log: Seq<FrameModel>, stderr_side: bool) -> Seq<u8>
    decreases log.len(),
{
    if log.len() == 0 {
        Seq::empty()
    } else {
        stream_bytes(log.drop_last(), stderr_side) + frame_payload(log.last(), stderr_side)
    }
}

pub proof fn lemma_stream_bytes_push(log: Seq<FrameModel>, f: FrameModel, stderr_side: bool)
    ensures
        stream_bytes(log.push(f), stderr_side) == stream_bytes(log, stderr_side) + frame_payload(
            f,
            stderr_side,
        ),
{
    assert(log.push(f).drop_last() =~= log);
    assert(log.push(f).last() == f);
}

/// One output stream of the child: how many bytes have been forwarded,
/// whether the pipe is still being read, and whether output was cut off.
pub struct StreamState {
    pub forwarded: usize,
    pub open: bool,
    pub truncated: bool,
}

/// The accounting state of one request's output session.
pub struct OutputSession {
    pub limit: usize,
    pub stdout: StreamState,
    pub stderr: StreamState,
    pub done_sent: bool,
    pub log: Ghost<Seq<FrameModel>>,
}

impl OutputSession {
    /// The session's invariant: totals match the frame log, never exceed the
    /// limit, a truncated stream is closed having forwarded exactly the
    /// limit, and `Done` appears exactly once, at the end, once sent.
    pub open spec fn inv(&self) -> bool {
        &&& self.stdout.forwarded == stream_bytes(self.log@, false).len()
        &&& self.stderr.forwarded == stream_bytes(self.log@, true).len()
        &&& self.stdout.forwarded <= self.limit
        &&& self.stderr.forwarded <= self.limit
        &&& (self.stdout.truncated ==> !self.stdout.open && self.stdout.forwarded == self.limit)
        &&& (self.stderr.truncated ==> !self.stderr.open && self.stderr.forwarded == self.limit)
        &&& (!self.done_sent ==> forall|i: int|
            0 <= i < self.log@.len() ==> !((#[trigger] self.log@[i]) is Done))
        &&& (self.done_sent ==> self.log@.len() > 0 && self.log@.last() is Done && forall|i: int|
            0 <= i < self.log@.len() - 1 ==> !((#[trigger] self.log@[i]) is Done))
    }

    /// A fresh session: nothing forwarded, both streams open, no frame yet.
    pub fn new(limit: usize) -> (s: Self)
        ensures
            s.inv(),
            s.limit == limit,
            s.stdout.forwarded == 0 && s.stderr.forwarded == 0,
            s.stdout.open && s.stderr.open,
            !s.stdout.truncated && !s.stderr.truncated,
            !s.done_sent,
            s.log@ == Seq::<FrameModel>::empty(),
    {
        OutputSession {
            limit,
            stdout: StreamState { forwarded: 0, open: true, truncated: false },
            stderr: StreamState { forwarded: 0, open: true, truncated: false },
            done_sent: false,
            log: Ghost(Seq::empty()),
        }
    }

    /// Accounts for one read from the child's stdout pipe: forwards the
    /// bytes that fit under the limit, and on overflow closes and marks the
    /// stream truncated. Returns the chunk to send, if any.
    pub fn on_stdout_chunk(&mut self, chunk: Vec<u8>) -> (emit: Option<Vec<u8>>)
        requires
            old(self).inv(),
            !old(self).done_sent,
            old(self).stdout.open,
        ensures
            final(self).inv(),
            final(self).limit == old(self).limit,
            final(self).stderr == old(self).stderr,
            final(self).done_sent == old(self).done_sent,
            chunk@.len() <= old(self).limit - old(self).stdout.forwarded ==> {
                &&& emit == Some(chunk)
                &&& final(self).stdout.forwarded == old(self).stdout.forwarded + chunk@.len()
                &&& final(self).stdout.open
                &&& !final(self).stdout.truncated
            },
            chunk@.len() > old(self).limit - old(self).stdout.forwarded ==> {
                &&& final(self).stdout.forwarded == old(self).limit
                &&& !final(self).stdout.open
                &&& final(self).stdout.truncated
                &&& (old(self).stdout.forwarded < old(self).limit ==> (emit matches Some(v) && v@
                    == chunk@.take(old(self).limit - old(self).stdout.forwarded)))
                &&& (old(self).stdout.forwarded == old(self).limit ==> emit is None)
            },
            stream_bytes(final(self).log@, false) == stream_bytes(old(self).log@, false)
                + emitted_bytes(emit),
            stream_bytes(final(self).log@, true) == stream_bytes(old(self).log@, true),
    {
        let room = self.limit - self.stdout.forwarded;
        if chunk.len() <= room {
            self.stdout.forwarded = self.stdout.forwarded + chunk.len();
            proof {
                lemma_stream_bytes_push(self.log@, FrameModel::Stdout(chunk@), false);
                lemma_stream_bytes_push(self.log@, FrameModel::Stdout(chunk@), true);
            }
            self.log = Ghost(self.log@.push(FrameModel::Stdout(chunk@)));
            Some(chunk)
        } else {
            self.stdout.forwarded = self.limit;
            self.stdout.open = false;
            self.stdout.truncated = true;
            if room > 0 {
                let part = vec_take_prefix(&chunk, room);
                proof {
                    lemma_stream_bytes_push(self.log@, FrameModel::Stdout(part@), false);
                    lemma_stream_bytes_push(self.log@, FrameModel::Stdout(part@), true);
                }
                self.log = Ghost(self.log@.push(FrameModel::Stdout(part@)));
                Some(part)
            } else {
                None
            }
        }
    }

    /// Accounts for one read from the child's stderr pipe; the mirror image
    /// of `on_stdout_chunk`.
    pub fn on_stderr_chunk(&mut self, chunk: Vec<u8>) -> (emit: Option<Vec<u8>>)
        requires
            old(self).inv(),
            !old(self).done_sent,
            old(self).stderr.open,
        ensures
            final(self).inv(),
            final(self).limit == old(self).limit,
            final(self).stdout == old(self).stdout,
            final(self).done_sent == old(self).done_sent,
            chunk@.len() <= old(self).limit - old(self).stderr.forwarded ==> {
                &&& emit == Some(chunk)
                &&& final(self).stderr.forwarded == old(self).stderr.forwarded + chunk@.len()
                &&& final(self).stderr.open
                &&& !final(self).stderr.truncated
            },
            chunk@.len() > old(self).limit - old(self).stderr.forwarded ==> {
                &&& final(self).stderr.forwarded == old(self).limit
                &&& !final(self).stderr.open
                &&& final(self).stderr.truncated
                &&& (old(self).stderr.forwarded < old(self).limit ==> (emit matches Some(v) && v@
                    == chunk@.take(old(self).limit - old(self).stderr.forwarded)))
                &&& (old(self).stderr.forwarded == old(self).limit ==> emit is None)
            },
            stream_bytes(final(self).log@, true) == stream_bytes(old(self).log@, true)
                + emitted_bytes(emit),
            stream_bytes(final(self).log@, false) == stream_bytes(old(self).log@, false),
    {
        let room = self.limit - self.stderr.forwarded;
        if chunk.len() <= room {
            self.stderr.forwarded = self.stderr.forwarded + chunk.len();
            proof {
                lemma_stream_bytes_push(self.log@, FrameModel::Stderr(chunk@), false);
                lemma_stream_bytes_push(self.log@, FrameModel::Stderr(chunk@), true);
            }
            self.log = Ghost(self.log@.push(FrameModel::Stderr(chunk@)));
            Some(chunk)
        } else {
            self.stderr.forwarded = self.limit;
            self.stderr.open = false;
            self.stderr.truncated = true;
            if room > 0 {
                let part = vec_take_prefix(&chunk, room);
                proof {
                    lemma_stream_bytes_push(self.log@, FrameModel::Stderr(part@), false);
                    lemma_stream_bytes_push(self.log@, FrameModel::Stderr(part@), true);
                }
                self.log = Ghost(self.log@.push(FrameModel::Stderr(part@)));
                Some(part)
            } else {
                None
            }
        }
    }

    /// Records a hang-up on the stdout pipe: the stream is closed unchanged.
    pub fn on_stdout_hup(&mut self)
        requires
            old(self).inv(),
        ensures
            final(self).inv(),
            !final(self).stdout.open,
            final(self).stdout.forwarded == old(self).stdout.forwarded,
            final(self).stdout.truncated == old(self).stdout.truncated,
            final(self).stderr == old(self).stderr,
            final(self).done_sent == old(self).done_sent,
            final(self).limit == old(self).limit,
            final(self).log@ == old(self).log@,
    {
        self.stdout.open = false;
    }

    /// Records a hang-up on the stderr pipe: the stream is closed unchanged.
    pub fn on_stderr_hup(&mut self)
        requires
            old(self).inv(),
        ensures
            final(self).inv(),
            !final(self).stderr.open,
            final(self).stderr.forwarded == old(self).stderr.forwarded,
            final(self).stderr.truncated == old(self).stderr.truncated,
            final(self).stdout == old(self).stdout,
            final(self).done_sent == old(self).done_sent,
            final(self).limit == old(self).limit,
            final(self).log@ == old(self).log@,
    {
        self.stderr.open = false;
    }

    /// Records the final frame. After this no chunk can be accounted, so the
    /// `Done` frame is the last frame of the session. Returns the per-stream
    /// truncation flags the frame must report.
    pub fn finish(&mut self) -> (r: (bool, bool))
        requires
            old(self).inv(),
            !old(self).done_sent,
        ensures
            final(self).inv(),
            final(self).done_sent,
            final(self).log@ == old(self).log@.push(FrameModel::Done),
            final(self).stdout == old(self).stdout,
            final(self).stderr == old(self).stderr,
            final(self).limit == old(self).limit,
            r == (old(self).stdout.truncated, old(self).stderr.truncated),
    {
        proof {
            lemma_stream_bytes_push(self.log@, FrameModel::Done, false);
            lemma_stream_bytes_push(self.log@, FrameModel::Done, true);
        }
        self.log = Ghost(self.log@.push(FrameModel::Done));
        self.done_sent = true;
        (self.stdout.truncated, self.stderr.truncated)
    }
}

/// The bytes an emission decision puts on the wire.
pub open spec fn emitted_bytes(emit: Option<Vec<u8>>) -> Seq<u8> {
    match emit {
        Some(v) => v@,
        None => Seq::empty(),
    }
}

fn vec_take_prefix(v: &Vec<u8>, n: usize) -> (r: Vec<u8>)
    requires
        n <= v@.len(),
    ensures
        r@ == v@.take(n as int),
{
    let mut r: Vec<u8> = Vec::new();
    let mut i: usize = 0;
    while i < n
        invariant
            i <= n <= v@.len(),
            r@ == v@.take(i as int),
        decreases n - i,
    {
        let b = v[i];
        r.push(b);
        i = i + 1;
        assert(r@ =~= v@.take(i as int));
    }
    proof {
        assert(r@ =~= v@.take(n as int));
    }
    r
}

/// Once the final frame is recorded, it stands last: no stdout or stderr
/// frame follows `Done` in the session's frame log.
pub proof fn lemma_done_is_final(s: &OutputSession)
    requires
        s.inv(),
        s.done_sent,
    ensures
        s.log@.len() > 0,
        s.log@.last() is Done,
        forall|i: int| 0 <= i < s.log@.len() - 1 ==> !((#[trigger] s.log@[i]) is Done),
{
}

/// A truncated stream has forwarded exactly the session limit: never less,
/// never more, whatever was written past it.
pub proof fn lemma_truncation_exact(s: &OutputSession)
    requires
        s.inv(),
    ensures
        s.stdout.truncated ==> stream_bytes(s.log@, false).len() == s.limit,
        s.stderr.truncated ==> stream_bytes(s.log@, true).len() == s.limit,
        stream_bytes(s.log@, false).len() <= s.limit,
        stream_bytes(s.log@, true).len() <= s.limit,
{
}

} // verus!
