//! Session-lock operations.
//!
//! A session lock is taken at most once and given back explicitly; while it
//! is held, one lock surface per output can be created. A lock command on a
//! compositor without the session-lock extension is dropped silently: the
//! capability is expected to be absent on many compositors, and the
//! consumer treats the missing notification as the signal.

use vstd::prelude::*;
use crate::events::{
    LockSurfaceConfigure, ProtocolRequest, SctkEvent, StepOutput,
};
use crate::frame::{seq_status_of, step_request_redraw};
use crate::geometry::Size;
use crate::ids::{Id, ObjectId};
use crate::registry::lemma_entries_map_dom;
use crate::state::{
    find_lock, find_lock_by_surface, insert_id, Common, LockSurfaceRecord, SctkState, StateModel,
};

verus! {

/// The record a successful lock-surface creation pushes.
pub open spec fn created_lock_record(
    id: Id,
    surface: ObjectId,
    viewporter: bool,
    fractional_scaling: bool,
) -> LockSurfaceRecord {
    LockSurfaceRecord {
        id,
        surface,
        last_configure: None,
        has_fractional_scale: fractional_scaling,
        common: Common {
            fractional_scale: None,
            size: Size { width: 1, height: 1 },
            requested_size: (None, None),
            has_viewport: viewporter,
        },
    }
}

/// The ordered protocol calls a successful lock-surface creation performs.
pub open spec fn lock_surface_requests(
    surface: ObjectId,
    output: ObjectId,
    viewporter: bool,
    fractional_scaling: bool,
) -> Seq<ProtocolRequest> {
    seq![ProtocolRequest::CreateLockSurface { surface, output }] + (if viewporter {
        seq![ProtocolRequest::GetViewport { surface }]
    } else {
        Seq::empty()
    }) + (if fractional_scaling {
        seq![ProtocolRequest::GetFractionalScale { surface }]
    } else {
        Seq::empty()
    })
}

/// What a lock command does: with the extension and no lock held, the lock
/// is requested and announced; otherwise nothing.
pub open spec fn lock_post(
    pre: StateModel,
    post: StateModel,
    reqs: Seq<ProtocolRequest>,
    evs: Seq<SctkEvent>,
) -> bool {
    if pre.caps.session_lock && !pre.session_lock_active {
        &&& post == (StateModel { session_lock_active: true, ..pre })
        &&& reqs == seq![ProtocolRequest::LockSession]
        &&& evs == seq![SctkEvent::SessionLocked]
    } else {
        post == pre && reqs == Seq::<ProtocolRequest>::empty()
            && evs == Seq::<SctkEvent>::empty()
    }
}

/// What an unlock command does: the unlock call goes out only while a lock
/// is held, and the consumer always hears the session is unlocked.
pub open spec fn unlock_post(
    pre: StateModel,
    post: StateModel,
    reqs: Seq<ProtocolRequest>,
    evs: Seq<SctkEvent>,
) -> bool {
    &&& post == (StateModel { session_lock_active: false, ..pre })
    &&& reqs == if pre.session_lock_active {
        seq![ProtocolRequest::UnlockSession]
    } else {
        Seq::<ProtocolRequest>::empty()
    }
    &&& evs == seq![SctkEvent::SessionUnlocked]
}

/// What a lock-surface creation does: with the active lock, a fresh
/// registered surface with its creation calls and a created notification;
/// without it, nothing.
pub open spec fn get_lock_surface_post(
    pre: StateModel,
    post: StateModel,
    id: Id, output: ObjectId,
    reqs: Seq<ProtocolRequest>,
    evs: Seq<SctkEvent>,
) -> bool {
    if pre.session_lock_active {
        let surface = ObjectId(pre.next_object_id);
        &&& post == (StateModel {
            lock_surfaces: pre.lock_surfaces.push(
                created_lock_record(
                    id,
                    surface,
                    pre.caps.viewporter,
                    pre.caps.fractional_scaling,
                ),
            ),
            id_map: pre.id_map.insert(surface, id),
            next_object_id: (pre.next_object_id + 1) as u64,
            frame_status: post.frame_status,
            ..pre
        })
        &&& seq_status_of(post.frame_status, surface)
            == crate::frame::step_frame_callback(
            seq_status_of(pre.frame_status, surface),
        )
        &&& forall|o: ObjectId|
            o != surface ==> seq_status_of(post.frame_status, o) == seq_status_of(
                pre.frame_status,
                o,
            )
        &&& reqs == lock_surface_requests(
            surface,
            output,
            pre.caps.viewporter,
            pre.caps.fractional_scaling,
        )
        &&& evs == seq![
            SctkEvent::SessionLockSurfaceCreated { surface, native_id: id },
        ]
    } else {
        post == pre && reqs == Seq::<ProtocolRequest>::empty()
            && evs == Seq::<SctkEvent>::empty()
    }
}

/// What destroying a lock surface does: the record, registry mapping and
/// throttle entry go away, the id is held until dropped, and the consumer
/// is told.
pub open spec fn destroy_lock_surface_post(
    pre: StateModel,
    post: StateModel,
    id: Id,
    reqs: Seq<ProtocolRequest>,
    evs: Seq<SctkEvent>,
) -> bool {
    match find_lock(pre.lock_surfaces, id) {
        Some(i) => {
            let rec = pre.lock_surfaces[i as int];
            &&& post == (StateModel {
                lock_surfaces: pre.lock_surfaces.remove(i as int),
                id_map: pre.id_map.remove(rec.surface),
                destroyed: if pre.id_map.dom().contains(rec.surface) {
                    insert_id(pre.destroyed, pre.id_map[rec.surface])
                } else {
                    pre.destroyed
                },
                frame_status: post.frame_status,
                ..pre
            })
            &&& seq_status_of(post.frame_status, rec.surface) == (
            crate::frame::FrameStatus::Received)
            &&& forall|o: ObjectId|
                o != rec.surface ==> seq_status_of(post.frame_status, o)
                    == seq_status_of(pre.frame_status, o)
            &&& reqs == seq![
                ProtocolRequest::DestroySurface { surface: rec.surface },
            ]
            &&& evs == seq![
                SctkEvent::SessionLockSurfaceDone { surface: rec.surface },
            ]
        },
        None => post == pre && reqs == Seq::<
            ProtocolRequest,
        >::empty() && evs == Seq::<SctkEvent>::empty(),
    }
}

/// What a lock-surface configure does: the throttle is asked for a redraw,
/// the size is recorded, and the consumer is told, with the first
/// configure marked.
pub open spec fn lock_surface_configure_post(
    pre: StateModel,
    post: StateModel,
    surface: ObjectId, width: u32, height: u32,
    reqs: Seq<ProtocolRequest>,
    evs: Seq<SctkEvent>,
) -> bool {
    &&& reqs == Seq::<ProtocolRequest>::empty()
    &&& seq_status_of(post.frame_status, surface) == step_request_redraw(
        seq_status_of(pre.frame_status, surface),
    )
    &&& forall|o: ObjectId|
        o != surface ==> seq_status_of(post.frame_status, o) == seq_status_of(
            pre.frame_status,
            o,
        )
    &&& match find_lock_by_surface(pre.lock_surfaces, surface) {
        Some(i) => {
            let rec = pre.lock_surfaces[i as int];
            &&& post == (StateModel {
                lock_surfaces: pre.lock_surfaces.update(
                    i as int,
                    LockSurfaceRecord {
                        last_configure: Some(
                            (LockSurfaceConfigure { new_size: (width, height) }),
                        ),
                        common: Common {
                            size: Size { width, height },
                            ..rec.common
                        },
                        ..rec
                    },
                ),
                frame_status: post.frame_status,
                ..pre
            })
            &&& evs == seq![
                SctkEvent::SessionLockSurfaceConfigure {
                    surface,
                    configure: (LockSurfaceConfigure { new_size: (width, height) }),
                    first: rec.last_configure is None,
                },
            ]
        },
        None => post == (StateModel {
            frame_status: post.frame_status,
            ..pre
        }) && evs == Seq::<SctkEvent>::empty(),
    }
}

/// What the compositor ending the lock does: the lock is gone and the
/// consumer is told.
pub open spec fn session_lock_finished_post(
    pre: StateModel,
    post: StateModel,
    reqs: Seq<ProtocolRequest>,
    evs: Seq<SctkEvent>,
) -> bool {
    &&& post == (StateModel { session_lock_active: false, ..pre })
    &&& reqs == Seq::<ProtocolRequest>::empty()
    &&& evs == seq![SctkEvent::SessionLockFinished]
}

impl SctkState {
    /// Requests a session lock.
    ///
    /// Without the extension, or while a lock is already held, nothing
    /// happens. Otherwise the lock is requested and the consumer is told
    /// the session is locked.
    pub fn lock(&mut self) -> (out: StepOutput)
        requires
            old(self).wf(),
        ensures
            final(self).wf(),
            lock_post(old(self)@, final(self)@, out.requests@, out.events@),
    {
        let mut out = StepOutput::new();
        if self.caps.session_lock && !self.session_lock_active {
            self.session_lock_active = true;
            out.requests.push(ProtocolRequest::LockSession);
            out.events.push(SctkEvent::SessionLocked);
        }
        out
    }

    /// Gives the session lock back.
    ///
    /// The unlock call goes out only while a lock is held, but the consumer
    /// is always told the session is unlocked, so it never waits on a lock
    /// that does not exist.
    pub fn unlock(&mut self) -> (out: StepOutput)
        requires
            old(self).wf(),
        ensures
            final(self).wf(),
            unlock_post(old(self)@, final(self)@, out.requests@, out.events@),
    {
        let mut out = StepOutput::new();
        if self.session_lock_active {
            self.session_lock_active = false;
            out.requests.push(ProtocolRequest::UnlockSession);
        }
        out.events.push(SctkEvent::SessionUnlocked);
        out
    }

    /// Creates a lock surface for `output` under the consumer's `id`.
    ///
    /// Needs the active lock; without one nothing happens and no
    /// notification arrives, which the consumer reads as the capability
    /// being absent. On success a fresh protocol object is allocated and
    /// registered, the record is pushed, the creation calls are issued, the
    /// throttle is poked as if a frame arrived, and a created notification
    /// is emitted.
    pub fn get_lock_surface(&mut self, id: Id, output: ObjectId) -> (out: StepOutput)
        requires
            old(self).wf(),
            old(self).next_object_id < u64::MAX,
        ensures
            final(self).wf(),
            get_lock_surface_post(old(self)@, final(self)@, id, output, out.requests@, out.events@),
    {
        let mut out = StepOutput::new();
        if !self.session_lock_active {
            return out;
        }
        let surface = ObjectId(self.next_object_id);
        self.next_object_id = self.next_object_id + 1;
        proof {
            lemma_entries_map_dom(self.id_map.entries@);
        }
        let reg = self.id_map.register(surface, id);
        proof {
            assert(reg is Ok);
        }
        self.lock_surfaces.push(
            LockSurfaceRecord {
                id,
                surface,
                last_configure: None,
                has_fractional_scale: self.caps.fractional_scaling,
                common: Common {
                    fractional_scale: None,
                    size: Size { width: 1, height: 1 },
                    requested_size: (None, None),
                    has_viewport: self.caps.viewporter,
                },
            },
        );
        out.requests.push(ProtocolRequest::CreateLockSurface { surface, output });
        if self.caps.viewporter {
            out.requests.push(ProtocolRequest::GetViewport { surface });
        }
        if self.caps.fractional_scaling {
            out.requests.push(ProtocolRequest::GetFractionalScale { surface });
        }
        let ghost mid = self@;
        self.frame_status.frame_callback(surface);
        proof {
            assert forall|o: ObjectId| o != surface implies seq_status_of(
                self@.frame_status,
                o,
            ) == seq_status_of(mid.frame_status, o) by {
                assert(self.frame_status.status_of(o) == seq_status_of(mid.frame_status, o));
            }
            assert(seq_status_of(self@.frame_status, surface) == crate::frame::step_frame_callback(
                seq_status_of(mid.frame_status, surface),
            )) by {
                assert(self.frame_status.status_of(surface) == crate::frame::step_frame_callback(
                    seq_status_of(mid.frame_status, surface),
                ));
            }
            assert(out.requests@ =~= lock_surface_requests(
                surface,
                output,
                old(self).caps.viewporter,
                old(self).caps.fractional_scaling,
            ));
        }
        out.events.push(SctkEvent::SessionLockSurfaceCreated { surface, native_id: id });
        out
    }

    /// Destroys the lock surface with consumer id `id`.
    pub fn destroy_lock_surface(&mut self, id: Id) -> (out: StepOutput)
        requires
            old(self).wf(),
        ensures
            final(self).wf(),
            destroy_lock_surface_post(old(self)@, final(self)@, id, out.requests@, out.events@),
    {
        let mut out = StepOutput::new();
        let i = match self.find_lock_index(id) {
            Some(i) => i,
            None => {
                return out;
            }
        };
        let rec = self.lock_surfaces.remove(i);
        match self.id_map.forget(rec.surface) {
            Some(destroyed_id) => {
                self.insert_destroyed(destroyed_id);
            }
            None => {}
        }
        let ghost mid = *self;
        self.frame_status.forget(rec.surface);
        proof {
            assert forall|o: ObjectId| o != rec.surface implies seq_status_of(
                self@.frame_status,
                o,
            ) == seq_status_of(old(self)@.frame_status, o) by {
                assert(self.frame_status.status_of(o) == mid.frame_status.status_of(o));
            }
            assert(seq_status_of(self@.frame_status, rec.surface) == (
            crate::frame::FrameStatus::Received)) by {
                assert(self.frame_status.status_of(rec.surface) == (
                crate::frame::FrameStatus::Received));
            }
        }
        out.requests.push(ProtocolRequest::DestroySurface { surface: rec.surface });
        out.events.push(SctkEvent::SessionLockSurfaceDone { surface: rec.surface });
        out
    }

    /// Handles a lock-surface configure from the compositor: the throttle
    /// is asked for a redraw, the negotiated size is recorded, and the
    /// consumer is told, with a flag marking the first configure.
    pub fn lock_surface_configure(&mut self, surface: ObjectId, width: u32, height: u32) -> (out:
        StepOutput)
        requires
            old(self).wf(),
        ensures
            final(self).wf(),
            lock_surface_configure_post(old(self)@, final(self)@, surface, width, height, out.requests@, out.events@),
    {
        let mut out = StepOutput::new();
        self.frame_status.request_redraw(surface);
        proof {
            assert forall|o: ObjectId| o != surface implies seq_status_of(
                self@.frame_status,
                o,
            ) == seq_status_of(old(self)@.frame_status, o) by {
                assert(self.frame_status.status_of(o) == old(self).frame_status.status_of(o));
            }
        }
        let i = match self.find_lock_index_by_surface(surface) {
            Some(i) => i,
            None => {
                return out;
            }
        };
        let mut rec = self.lock_surfaces.remove(i);
        let first = match rec.last_configure {
            Some(_) => false,
            None => true,
        };
        rec.last_configure = Some(LockSurfaceConfigure { new_size: (width, height) });
        rec.common.size = Size { width, height };
        self.lock_surfaces.insert(i, rec);
        proof {
            assert(self.lock_surfaces@ =~= old(self)@.lock_surfaces.update(
                i as int,
                LockSurfaceRecord {
                    last_configure: Some((LockSurfaceConfigure { new_size: (width, height) })),
                    common: Common {
                        size: Size { width, height },
                        ..old(self)@.lock_surfaces[i as int].common
                    },
                    ..old(self)@.lock_surfaces[i as int]
                },
            ));
        }
        out.events.push(
            SctkEvent::SessionLockSurfaceConfigure {
                surface,
                configure: LockSurfaceConfigure { new_size: (width, height) },
                first,
            },
        );
        out
    }

    /// Handles the compositor ending the session lock on its own.
    pub fn session_lock_finished(&mut self) -> (out: StepOutput)
        requires
            old(self).wf(),
        ensures
            final(self).wf(),
            session_lock_finished_post(old(self)@, final(self)@, out.requests@, out.events@),
    {
        let mut out = StepOutput::new();
        self.session_lock_active = false;
        out.events.push(SctkEvent::SessionLockFinished);
        out
    }
}

} // verus!
