//! The frame throttle.
//!
//! Per protocol object, a small state machine gates redraw submission on
//! frame-callback receipt, so that at most one uncommitted frame is ever
//! outstanding. A surface may be committed only while [`FrameStatus::Ready`],
//! and it becomes ready only by receiving a frame callback after a redraw was
//! requested: a two-phase rendezvous, not a boolean.

use vstd::prelude::*;
use crate::ids::ObjectId;

verus! {

/// The throttle state of one surface.
#[derive(Debug, Clone, Copy, PartialEq, Eq, Structural)]
pub enum FrameStatus {
    /// A frame callback was received (or none is pending yet); nobody is
    /// waiting to draw.
    Received,
    /// A redraw was requested, but no frame callback has arrived since the
    /// last commit.
    RequestedRedraw,
    /// A redraw was requested and a frame callback has arrived: the surface
    /// may be committed once.
    Ready,
}

/// What a redraw request does to one surface's state.
pub open spec fn step_request_redraw(s: FrameStatus) -> FrameStatus {
    match s {
        FrameStatus::Received => FrameStatus::RequestedRedraw,
        _ => s,
    }
}

/// What a frame callback does to one surface's state.
pub open spec fn step_frame_callback(s: FrameStatus) -> FrameStatus {
    match s {
        FrameStatus::RequestedRedraw => FrameStatus::Ready,
        _ => s,
    }
}

/// What a commit does to one surface's state: it consumes readiness. A
/// commit is permitted only in `Ready`.
pub open spec fn step_commit(s: FrameStatus) -> FrameStatus {
    FrameStatus::Received
}

/// One tracked surface.
#[derive(Debug, Clone, Copy, PartialEq, Eq, Structural)]
pub struct FrameEntry {
    pub surface: ObjectId,
    pub status: FrameStatus,
}

/// The throttle states of all live surfaces.
///
/// A surface without an entry behaves as [`FrameStatus::Received`]: nothing
/// was requested and nothing is owed.
#[derive(Debug)]
pub struct FrameTracker {
    pub entries: Vec<FrameEntry>,
}

impl FrameTracker {
    /// Each surface has at most one entry.
    pub open spec fn wf(&self) -> bool {
        forall|i: int, j: int|
            0 <= i < j < self.entries@.len() ==> self.entries@[i].surface
                != self.entries@[j].surface
    }

    /// The state of `surface`; absent entries count as `Received`.
    pub open spec fn status_of(&self, surface: ObjectId) -> FrameStatus {
        seq_status_of(self.entries@, surface)
    }

    /// An empty tracker: every surface is `Received`.
    pub fn new() -> (t: FrameTracker)
        ensures
            t.wf(),
            forall|s: ObjectId| t.status_of(s) == (FrameStatus::Received),
    {
        FrameTracker { entries: Vec::new() }
    }

    /// Finds the index of the entry for `surface`.
    fn find(&self, surface: ObjectId) -> (r: Option<usize>)
        requires
            self.wf(),
        ensures
            match r {
                Some(i) => i < self.entries@.len() && self.entries@[i as int].surface == surface
                    && self.status_of(surface) == self.entries@[i as int].status,
                None => self.status_of(surface) == (FrameStatus::Received) && forall|i: int|
                    0 <= i < self.entries@.len() ==> (#[trigger] self.entries@[i]).surface
                        != surface,
            },
    {
        let mut i: usize = 0;
        while i < self.entries.len()
            invariant
                self.wf(),
                i <= self.entries@.len(),
                forall|j: int| 0 <= j < i ==> (#[trigger] self.entries@[j]).surface != surface,
            decreases self.entries@.len() - i,
        {
            if self.entries[i].surface == surface {
                proof {
                    let w = choose|w: int|
                        0 <= w < self.entries@.len() && (#[trigger] self.entries@[w]).surface
                            == surface;
                    assert(w == i as int);
                }
                return Some(i);
            }
            i += 1;
        }
        None
    }

    /// Writes `status` for `surface`, keeping every other surface's state.
    fn set_status(&mut self, surface: ObjectId, status: FrameStatus)
        requires
            old(self).wf(),
        ensures
            final(self).wf(),
            final(self).status_of(surface) == status,
            forall|s: ObjectId| s != surface ==> final(self).status_of(s) == old(
                self,
            ).status_of(s),
    {
        let n = self.entries.len();
        match self.find(surface) {
            Some(i) => {
                let mut e = self.entries.remove(i);
                e.status = status;
                self.entries.insert(i, e);
                proof {
                    assert(self.entries@ =~= old(self).entries@.update(
                        i as int,
                        FrameEntry { surface, status },
                    ));
                    assert(self.entries@[i as int].surface == surface);
                    let w = choose|w: int|
                        0 <= w < self.entries@.len() && (#[trigger] self.entries@[w]).surface
                            == surface;
                    assert(w == i as int);
                    assert forall|s: ObjectId| s != surface implies self.status_of(s) == old(
                        self,
                    ).status_of(s) by {
                        let pre = old(self).entries@;
                        let post = self.entries@;
                        if exists|a: int| 0 <= a < pre.len() && (#[trigger] pre[a]).surface == s {
                            let a = choose|a: int|
                                0 <= a < pre.len() && (#[trigger] pre[a]).surface == s;
                            assert(post[a].surface == s);
                        }
                        if exists|b: int| 0 <= b < post.len() && (#[trigger] post[b]).surface
                            == s {
                            let b = choose|b: int|
                                0 <= b < post.len() && (#[trigger] post[b]).surface == s;
                            assert(b != i as int);
                            assert(pre[b].surface == s);
                        }
                        lemma_status_framing(pre, post, s);
                    }
                }
            }
            None => {
                self.entries.push(FrameEntry { surface, status });
                proof {
                    assert(self.entries@[n as int].surface == surface);
                    let w = choose|w: int|
                        0 <= w < self.entries@.len() && (#[trigger] self.entries@[w]).surface
                            == surface;
                    assert(w == n as int);
                    assert forall|s: ObjectId| s != surface implies self.status_of(s) == old(
                        self,
                    ).status_of(s) by {
                        let pre = old(self).entries@;
                        let post = self.entries@;
                        if exists|a: int| 0 <= a < pre.len() && (#[trigger] pre[a]).surface == s {
                            let a = choose|a: int|
                                0 <= a < pre.len() && (#[trigger] pre[a]).surface == s;
                            assert(post[a].surface == s);
                        }
                        if exists|b: int| 0 <= b < post.len() && (#[trigger] post[b]).surface
                            == s {
                            let b = choose|b: int|
                                0 <= b < post.len() && (#[trigger] post[b]).surface == s;
                            assert(b != n as int);
                            assert(pre[b].surface == s);
                        }
                        lemma_status_framing(pre, post, s);
                    }
                }
            }
        }
    }

    /// Records that the consumer wants to redraw `surface`.
    ///
    /// `Received` becomes `RequestedRedraw`; a pending request or readiness
    /// is kept as it is.
    pub fn request_redraw(&mut self, surface: ObjectId)
        requires
            old(self).wf(),
        ensures
            final(self).wf(),
            final(self).status_of(surface) == step_request_redraw(old(self).status_of(surface)),
            forall|s: ObjectId| s != surface ==> final(self).status_of(s) == old(
                self,
            ).status_of(s),
    {
        match self.find(surface) {
            Some(i) => {
                let st = self.entries[i].status;
                match st {
                    FrameStatus::Received => self.set_status(surface, FrameStatus::RequestedRedraw),
                    _ => {
                        proof {
                            assert(self.status_of(surface) == st);
                        }
                    }
                }
            }
            None => {
                self.set_status(surface, FrameStatus::RequestedRedraw);
            }
        }
    }

    /// Records that the compositor delivered a frame callback for `surface`.
    ///
    /// `RequestedRedraw` becomes `Ready`; with nothing pending the callback
    /// changes nothing.
    pub fn frame_callback(&mut self, surface: ObjectId)
        requires
            old(self).wf(),
        ensures
            final(self).wf(),
            final(self).status_of(surface) == step_frame_callback(old(self).status_of(surface)),
            forall|s: ObjectId| s != surface ==> final(self).status_of(s) == old(
                self,
            ).status_of(s),
    {
        match self.find(surface) {
            Some(i) => {
                let st = self.entries[i].status;
                match st {
                    FrameStatus::RequestedRedraw => self.set_status(surface, FrameStatus::Ready),
                    _ => {}
                }
            }
            None => {
                self.set_status(surface, FrameStatus::Received);
            }
        }
    }

    /// Whether `surface` may be committed now.
    pub fn is_ready(&self, surface: ObjectId) -> (r: bool)
        requires
            self.wf(),
        ensures
            r == (self.status_of(surface) == (FrameStatus::Ready)),
    {
        match self.find(surface) {
            Some(i) => {
                let st = self.entries[i].status;
                match st {
                    FrameStatus::Ready => true,
                    _ => false,
                }
            }
            None => false,
        }
    }

    /// Consumes readiness on a commit.
    ///
    /// The caller must have checked [`FrameTracker::is_ready`]: committing a
    /// surface that has not signalled readiness is a protocol error that can
    /// desynchronize the connection.
    pub fn commit(&mut self, surface: ObjectId)
        requires
            old(self).wf(),
            old(self).status_of(surface) == (FrameStatus::Ready),
        ensures
            final(self).wf(),
            final(self).status_of(surface) == step_commit(old(self).status_of(surface)),
            final(self).status_of(surface) == (FrameStatus::Received),
            forall|s: ObjectId| s != surface ==> final(self).status_of(s) == old(
                self,
            ).status_of(s),
    {
        self.set_status(surface, FrameStatus::Received);
    }

    /// Drops the entry of a destroyed surface; the surface reads as
    /// `Received` afterwards.
    pub fn forget(&mut self, surface: ObjectId)
        requires
            old(self).wf(),
        ensures
            final(self).wf(),
            final(self).status_of(surface) == (FrameStatus::Received),
            forall|s: ObjectId| s != surface ==> final(self).status_of(s) == old(
                self,
            ).status_of(s),
    {
        match self.find(surface) {
            Some(i) => {
                let _ = self.entries.remove(i);
                proof {
                    assert(forall|a: int, b: int|
                        0 <= a < b < self.entries@.len() ==> self.entries@[a].surface
                            != self.entries@[b].surface);
                    assert forall|s: ObjectId| s != surface implies self.status_of(s) == old(
                        self,
                    ).status_of(s) by {
                        let pre = old(self).entries@;
                        let post = self.entries@;
                        assert(post == pre.subrange(0, i as int) + pre.subrange(
                            i as int + 1,
                            pre.len() as int,
                        ));
                        if exists|a: int| 0 <= a < pre.len() && (#[trigger] pre[a]).surface == s {
                            let a = choose|a: int|
                                0 <= a < pre.len() && (#[trigger] pre[a]).surface == s;
                            assert(a != i as int);
                            if a < i as int {
                                assert(post[a].surface == s);
                            } else {
                                assert(post[a - 1].surface == s);
                            }
                        }
                        if exists|b: int| 0 <= b < post.len() && (#[trigger] post[b]).surface
                            == s {
                            let b = choose|b: int|
                                0 <= b < post.len() && (#[trigger] post[b]).surface == s;
                            if b < i as int {
                                assert(pre[b].surface == s);
                            } else {
                                assert(pre[b + 1].surface == s);
                            }
                        }
                        lemma_status_framing(pre, post, s);
                    }
                    assert(forall|j: int|
                        0 <= j < self.entries@.len() ==> (#[trigger] self.entries@[j]).surface
                            != surface);
                }
            }
            None => {}
        }
    }
}

/// The state of `surface` in an entry sequence; absent entries count as
/// `Received`.
pub open spec fn seq_status_of(entries: Seq<FrameEntry>, surface: ObjectId) -> FrameStatus {
    if exists|i: int| 0 <= i < entries.len() && (#[trigger] entries[i]).surface == surface {
        entries[choose|i: int|
            0 <= i < entries.len() && (#[trigger] entries[i]).surface == surface].status
    } else {
        FrameStatus::Received
    }
}

/// If a surface occurs with the same status in two entry sequences, or in
/// neither, its observed status is the same in both.
proof fn lemma_status_framing(pre: Seq<FrameEntry>, post: Seq<FrameEntry>, s: ObjectId)
    requires
        (exists|i: int| 0 <= i < pre.len() && (#[trigger] pre[i]).surface == s) == (exists|i: int|
            0 <= i < post.len() && (#[trigger] post[i]).surface == s),
        forall|i: int, j: int|
            0 <= i < pre.len() && 0 <= j < post.len() && (#[trigger] pre[i]).surface == s && (
            #[trigger] post[j]).surface == s ==> pre[i].status == post[j].status,
    ensures
        seq_status_of(pre, s) == seq_status_of(post, s),
{
    if exists|i: int| 0 <= i < pre.len() && (#[trigger] pre[i]).surface == s {
        let i = choose|i: int| 0 <= i < pre.len() && (#[trigger] pre[i]).surface == s;
        let j = choose|j: int| 0 <= j < post.len() && (#[trigger] post[j]).surface == s;
        assert(pre[i].status == post[j].status);
    }
}

/// One event in the life of a single surface's throttle, for stating the
/// safety of whole runs.
pub enum FrameOp {
    /// The consumer asked to redraw.
    RequestRedraw,
    /// The compositor delivered a frame callback.
    FrameCallback,
    /// The dispatch pass tried to commit. The pass commits only surfaces in
    /// `Ready`, so on any other state this is a no-op.
    Commit,
}

/// The state after one operation.
pub open spec fn frame_op_step(s: FrameStatus, op: FrameOp) -> FrameStatus {
    match op {
        FrameOp::RequestRedraw => step_request_redraw(s),
        FrameOp::FrameCallback => step_frame_callback(s),
        FrameOp::Commit => if s == (FrameStatus::Ready) {
            step_commit(s)
        } else {
            s
        },
    }
}

/// The state after a run of operations, first operation first.
pub open spec fn frame_run(s: FrameStatus, ops: Seq<FrameOp>) -> FrameStatus
    decreases ops.len(),
{
    if ops.len() == 0 {
        s
    } else {
        frame_run(frame_op_step(s, ops[0]), ops.drop_first())
    }
}

/// How many commits a run actually performs: only a commit that meets the
/// `Ready` state submits a frame.
pub open spec fn commits_in(s: FrameStatus, ops: Seq<FrameOp>) -> int
    decreases ops.len(),
{
    if ops.len() == 0 {
        0
    } else {
        (if ops[0] == (FrameOp::Commit) && s == (FrameStatus::Ready) {
            1int
        } else {
            0int
        }) + commits_in(frame_op_step(s, ops[0]), ops.drop_first())
    }
}

/// How many times a run enters `Ready`: a frame callback arriving while a
/// redraw is pending is the only way in.
pub open spec fn ready_entries_in(s: FrameStatus, ops: Seq<FrameOp>) -> int
    decreases ops.len(),
{
    if ops.len() == 0 {
        0
    } else {
        (if ops[0] == (FrameOp::FrameCallback) && s == (FrameStatus::RequestedRedraw) {
            1int
        } else {
            0int
        }) + ready_entries_in(frame_op_step(s, ops[0]), ops.drop_first())
    }
}

/// Frame throttle safety: however redraw requests, frame callbacks and
/// commit attempts are interleaved, a frame is only submitted from `Ready`
/// (by construction of [`frame_op_step`] and [`FrameTracker::commit`]), and
/// at most one commit happens per entry into `Ready`: no surface is ever
/// double-submitted.
pub proof fn lemma_frame_throttle_safety(s: FrameStatus, ops: Seq<FrameOp>)
    ensures
        commits_in(s, ops) <= ready_entries_in(s, ops) + if s == (FrameStatus::Ready) {
            1int
        } else {
            0int
        },
    decreases ops.len(),
{
    if ops.len() > 0 {
        lemma_frame_throttle_safety(frame_op_step(s, ops[0]), ops.drop_first());
    }
}

/// The common starting case: from the initial state `Received`, a run never
/// commits more often than it enters `Ready`.
pub proof fn lemma_frame_throttle_safety_from_start(ops: Seq<FrameOp>)
    ensures
        commits_in(FrameStatus::Received, ops) <= ready_entries_in(FrameStatus::Received, ops),
{
    lemma_frame_throttle_safety(FrameStatus::Received, ops);
}

} // verus!
