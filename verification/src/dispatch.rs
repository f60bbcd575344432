//! The dispatch core.
//!
//! One typed entry point per event source, as the dispatch loop sees them:
//! [`SctkState::handle_command`] drains the command channel,
//! [`SctkState::dispatch_event`] takes the compositor's messages, and
//! [`SctkState::redraw_pass`] is the per-iteration scan that performs the
//! coalesced recommits and commits every surface whose throttle is ready.
//! Each returns the protocol calls to perform and the notifications to
//! deliver, in order; the shell around the loop does the performing.

use vstd::prelude::*;
use crate::activation::{activate_post, request_token_post, token_done_post};
use crate::commands::{
    Action, ActivationAction, LayerSurfaceAction, LoopCommand, PopupAction, SessionLockAction,
};
use crate::events::{ProtocolEvent, ProtocolRequest, SctkEvent, PopupEventVariant, StepOutput};
use crate::frame::{seq_status_of, step_frame_callback, step_request_redraw, FrameStatus};
use crate::ids::{Id, ObjectId, SurfaceIdWrapper};
use crate::layer::{
    create_layer_post, layer_closed_post, layer_configure_post, layer_destroy_post,
    layer_set_anchor_post, layer_set_exclusive_zone_post, layer_set_keyboard_interactivity_post,
    layer_set_layer_post, layer_set_margin_post, layer_set_size_post,
};
use crate::lock::{
    destroy_lock_surface_post, get_lock_surface_post, lock_post, lock_surface_configure_post,
    session_lock_finished_post, unlock_post,
};
use crate::popup::{
    popup_configure_event_post, popup_destroy_post, popup_done_post, popup_request_post,
    popup_set_size_post, retry_tick_post,
};
use crate::state::{
    find_layer_by_surface, find_lock_by_surface, find_popup_by_surface, remove_id, Common,
    LayerSurfaceRecord, LockSurfaceRecord, PopupParent, PopupRecord, SctkState, StateModel,
    WindowRecord,
};

verus! {

/// What a scale announcement does: the first record owning the surface gets
/// the new scale, the consumer is told, and on the legacy integer path the
/// buffer scale is re-issued, unless a fractional-scale object is bound for
/// the surface, which supersedes the legacy path entirely.
pub open spec fn scale_factor_changed_post(
    pre: StateModel,
    post: StateModel,
    surface: ObjectId,
    scale_120: u32,
    legacy: bool,
    reqs: Seq<ProtocolRequest>,
    evs: Seq<SctkEvent>,
) -> bool {
    let legacy_reqs = if legacy {
        seq![ProtocolRequest::SetBufferScale { surface, scale: scale_120 / 120 }]
    } else {
        Seq::<ProtocolRequest>::empty()
    };
    if find_popup_by_surface(pre.popups, surface) is Some {
        let i = find_popup_by_surface(pre.popups, surface)->0 as int;
        let rec = pre.popups[i];
        if legacy && rec.has_fractional_scale {
            post == pre && reqs == Seq::<ProtocolRequest>::empty() && evs == Seq::<
                SctkEvent,
            >::empty()
        } else {
            &&& post == (StateModel {
                popups: pre.popups.update(
                    i,
                    PopupRecord {
                        common: Common { fractional_scale: Some(scale_120), ..rec.common },
                        ..rec
                    },
                ),
                ..pre
            })
            &&& reqs == legacy_reqs
            &&& evs == seq![SctkEvent::SurfaceScaleFactorChanged(scale_120, surface, rec.id)]
        }
    } else if find_layer_by_surface(pre.layer_surfaces, surface) is Some {
        let i = find_layer_by_surface(pre.layer_surfaces, surface)->0 as int;
        let rec = pre.layer_surfaces[i];
        if legacy && rec.has_fractional_scale {
            post == pre && reqs == Seq::<ProtocolRequest>::empty() && evs == Seq::<
                SctkEvent,
            >::empty()
        } else {
            &&& post == (StateModel {
                layer_surfaces: pre.layer_surfaces.update(
                    i,
                    LayerSurfaceRecord {
                        common: Common { fractional_scale: Some(scale_120), ..rec.common },
                        ..rec
                    },
                ),
                ..pre
            })
            &&& reqs == legacy_reqs
            &&& evs == seq![SctkEvent::SurfaceScaleFactorChanged(scale_120, surface, rec.id)]
        }
    } else if find_lock_by_surface(pre.lock_surfaces, surface) is Some {
        let i = find_lock_by_surface(pre.lock_surfaces, surface)->0 as int;
        let rec = pre.lock_surfaces[i];
        if legacy && rec.has_fractional_scale {
            post == pre && reqs == Seq::<ProtocolRequest>::empty() && evs == Seq::<
                SctkEvent,
            >::empty()
        } else {
            &&& post == (StateModel {
                lock_surfaces: pre.lock_surfaces.update(
                    i,
                    LockSurfaceRecord {
                        common: Common { fractional_scale: Some(scale_120), ..rec.common },
                        ..rec
                    },
                ),
                ..pre
            })
            &&& reqs == legacy_reqs
            &&& evs == seq![SctkEvent::SurfaceScaleFactorChanged(scale_120, surface, rec.id)]
        }
    } else {
        post == pre && reqs == Seq::<ProtocolRequest>::empty() && evs == Seq::<
            SctkEvent,
        >::empty()
    }
}

/// The windows kept after removing every record with consumer id `id`.
pub open spec fn keep_windows_from(s: Seq<WindowRecord>, id: Id, from: int) -> Seq<WindowRecord>
    decreases s.len() - from,
{
    if from < 0 || from >= s.len() {
        Seq::empty()
    } else if s[from].id == id {
        keep_windows_from(s, id, from + 1)
    } else {
        seq![s[from]] + keep_windows_from(s, id, from + 1)
    }
}

/// The windows kept after removing every record with consumer id `id`.
pub open spec fn keep_windows(s: Seq<WindowRecord>, id: Id) -> Seq<WindowRecord> {
    keep_windows_from(s, id, 0)
}

/// What handling one command from the channel does.
pub open spec fn command_post(
    pre: StateModel,
    post: StateModel,
    command: LoopCommand,
    reqs: Seq<ProtocolRequest>,
    evs: Seq<SctkEvent>,
) -> bool {
    match command {
        LoopCommand::Action(action) => action_post(pre, post, action, reqs, evs),
        LoopCommand::TrackWindow(id, surface) => post == (StateModel {
            windows: pre.windows.push(WindowRecord { id, surface }),
            ..pre
        }) && reqs == Seq::<ProtocolRequest>::empty() && evs == Seq::<SctkEvent>::empty(),
        LoopCommand::RemoveWindow(id) => post == (StateModel {
            windows: keep_windows(pre.windows, id),
            ..pre
        }) && reqs == Seq::<ProtocolRequest>::empty() && evs == Seq::<SctkEvent>::empty(),
        LoopCommand::RequestRedraw(surface) => {
            &&& post == (StateModel { frame_status: post.frame_status, ..pre })
            &&& seq_status_of(post.frame_status, surface) == step_request_redraw(
                seq_status_of(pre.frame_status, surface),
            )
            &&& forall|o: ObjectId|
                o != surface ==> seq_status_of(post.frame_status, o) == seq_status_of(
                    pre.frame_status,
                    o,
                )
            &&& reqs == Seq::<ProtocolRequest>::empty()
            &&& evs == Seq::<SctkEvent>::empty()
        },
        LoopCommand::Dropped(wrapper) => {
            let id = match wrapper {
                SurfaceIdWrapper::LayerSurface(i) => i,
                SurfaceIdWrapper::Window(i) => i,
                SurfaceIdWrapper::Popup(i) => i,
                SurfaceIdWrapper::SessionLock(i) => i,
            };
            post == (StateModel { destroyed: remove_id(pre.destroyed, id), ..pre }) && reqs
                == Seq::<ProtocolRequest>::empty() && evs == Seq::<SctkEvent>::empty()
        },
    }
}

/// What handling one platform command does, by arm; each arm delegates to
/// the post-condition of the operation it names.
pub open spec fn action_post(
    pre: StateModel,
    post: StateModel,
    action: Action,
    reqs: Seq<ProtocolRequest>,
    evs: Seq<SctkEvent>,
) -> bool {
    match action {
        Action::LayerSurface(a) => match a {
            LayerSurfaceAction::LayerSurface { builder } => create_layer_post(
                pre,
                post,
                builder,
                reqs,
                evs,
            ),
            LayerSurfaceAction::Size { id, width, height } => layer_set_size_post(
                pre,
                post,
                id,
                width,
                height,
                reqs,
                evs,
            ),
            LayerSurfaceAction::Destroy(id) => layer_destroy_post(pre, post, id, reqs, evs),
            LayerSurfaceAction::Anchor { id, anchor } => layer_set_anchor_post(
                pre,
                post,
                id,
                anchor,
                reqs,
                evs,
            ),
            LayerSurfaceAction::ExclusiveZone { id, exclusive_zone } => {
                layer_set_exclusive_zone_post(pre, post, id, exclusive_zone, reqs, evs)
            },
            LayerSurfaceAction::Margin { id, margin } => layer_set_margin_post(
                pre,
                post,
                id,
                margin,
                reqs,
                evs,
            ),
            LayerSurfaceAction::KeyboardInteractivity { id, keyboard_interactivity } => {
                layer_set_keyboard_interactivity_post(
                    pre,
                    post,
                    id,
                    keyboard_interactivity,
                    reqs,
                    evs,
                )
            },
            LayerSurfaceAction::Layer { id, layer } => layer_set_layer_post(
                pre,
                post,
                id,
                layer,
                reqs,
                evs,
            ),
        },
        Action::Popup(a) => match a {
            PopupAction::Popup { popup } => popup_request_post(pre, post, popup, reqs, evs),
            PopupAction::Destroy { id } => popup_destroy_post(pre, post, id, reqs, evs),
            PopupAction::Size { id, width, height } => popup_set_size_post(
                pre,
                post,
                id,
                width,
                height,
                reqs,
                evs,
            ),
        },
        Action::Activation(a) => match a {
            ActivationAction::RequestToken { app_id, window } => request_token_post(
                pre,
                post,
                app_id,
                window,
                reqs,
                evs,
            ),
            ActivationAction::Activate { window, token } => activate_post(
                pre,
                post,
                window,
                token,
                reqs,
                evs,
            ),
        },
        Action::SessionLock(a) => match a {
            SessionLockAction::Lock => lock_post(pre, post, reqs, evs),
            SessionLockAction::Unlock => unlock_post(pre, post, reqs, evs),
            SessionLockAction::LockSurface { id, output } => get_lock_surface_post(
                pre,
                post,
                id,
                output,
                reqs,
                evs,
            ),
            SessionLockAction::DestroyLockSurface { id } => destroy_lock_surface_post(
                pre,
                post,
                id,
                reqs,
                evs,
            ),
        },
    }
}

/// What handling one compositor message does, by arm.
pub open spec fn event_post(
    pre: StateModel,
    post: StateModel,
    event: ProtocolEvent,
    reqs: Seq<ProtocolRequest>,
    evs: Seq<SctkEvent>,
) -> bool {
    match event {
        ProtocolEvent::Frame(surface) => {
            &&& post == (StateModel { frame_status: post.frame_status, ..pre })
            &&& seq_status_of(post.frame_status, surface) == step_frame_callback(
                seq_status_of(pre.frame_status, surface),
            )
            &&& forall|o: ObjectId|
                o != surface ==> seq_status_of(post.frame_status, o) == seq_status_of(
                    pre.frame_status,
                    o,
                )
            &&& reqs == Seq::<ProtocolRequest>::empty()
            &&& evs == Seq::<SctkEvent>::empty()
        },
        ProtocolEvent::LayerConfigure { surface, width, height } => layer_configure_post(
            pre,
            post,
            surface,
            width,
            height,
            reqs,
            evs,
        ),
        ProtocolEvent::LayerClosed { surface } => layer_closed_post(pre, post, surface, reqs, evs),
        ProtocolEvent::PopupConfigureEvent { surface, configure } => popup_configure_event_post(
            pre,
            post,
            surface,
            configure,
            reqs,
            evs,
        ),
        ProtocolEvent::PopupDone { surface } => popup_done_post(pre, post, surface, reqs, evs),
        ProtocolEvent::PopupRepositioned { surface, token } => {
            match find_popup_by_surface(pre.popups, surface) {
                Some(i) => {
                    let rec = pre.popups[i as int];
                    let parent_surface = match rec.parent {
                        PopupParent::LayerSurface(o) => o,
                        PopupParent::Window(o) => o,
                        PopupParent::Popup(o) => o,
                    };
                    post == pre && reqs == Seq::<ProtocolRequest>::empty() && evs == seq![
                        SctkEvent::PopupEvent {
                            variant: PopupEventVariant::RepositionedPopup { token },
                            toplevel_id: rec.toplevel,
                            parent_id: parent_surface,
                            id: surface,
                        },
                    ]
                },
                None => post == pre && reqs == Seq::<ProtocolRequest>::empty() && evs == Seq::<
                    SctkEvent,
                >::empty(),
            }
        },
        ProtocolEvent::LockSurfaceConfigureEvent { surface, width, height } => {
            lock_surface_configure_post(pre, post, surface, width, height, reqs, evs)
        },
        ProtocolEvent::SessionLockFinished => session_lock_finished_post(pre, post, reqs, evs),
        ProtocolEvent::ScaleFactorChanged { surface, scale_120, legacy } => {
            scale_factor_changed_post(pre, post, surface, scale_120, legacy, reqs, evs)
        },
        ProtocolEvent::TokenDone { ticket, token } => token_done_post(
            pre,
            post,
            ticket,
            token,
            reqs,
            evs,
        ),
        ProtocolEvent::OutputAdded(output) => post == (StateModel {
            outputs: pre.outputs.push(output),
            ..pre
        }) && reqs == Seq::<ProtocolRequest>::empty() && evs == seq![
            SctkEvent::NewOutput { id: output },
        ],
        ProtocolEvent::OutputUpdated(output) => post == pre && reqs == Seq::<
            ProtocolRequest,
        >::empty() && evs == seq![SctkEvent::UpdateOutput { id: output }],
        ProtocolEvent::OutputRemoved(output) => post == pre && reqs == Seq::<
            ProtocolRequest,
        >::empty() && evs == seq![SctkEvent::RemovedOutput(output)],
        ProtocolEvent::RetryTimer => retry_tick_post(pre, post, reqs, evs),
    }
}


/// The coalesced recommits for the marked surfaces, in mark order.
pub open spec fn commit_mark_requests(marks: Seq<crate::state::CommitMark>) -> Seq<
    ProtocolRequest,
> {
    marks.map(|k: int, m: crate::state::CommitMark| ProtocolRequest::Commit { surface: m.surface })
}

/// Every live surface, in scan order: layer surfaces, then popups, then lock
/// surfaces.
pub open spec fn pass_surfaces(s: StateModel) -> Seq<ObjectId> {
    s.layer_surfaces.map(|k: int, r: LayerSurfaceRecord| r.surface) + s.popups.map(
        |k: int, r: PopupRecord| r.surface,
    ) + s.lock_surfaces.map(|k: int, r: LockSurfaceRecord| r.surface)
}

/// Whether the scan commits `o` when it reaches it, given the surfaces
/// committed earlier in the same pass: the throttle must be ready and the
/// surface still registered, and a surface is committed at most once per
/// pass.
pub open spec fn pass_fires(m: StateModel, done: Set<ObjectId>, o: ObjectId) -> bool {
    &&& !done.contains(o)
    &&& seq_status_of(m.frame_status, o) == (FrameStatus::Ready)
    &&& m.id_map.dom().contains(o)
}

/// The commits the scan performs from position `k` on: the set of committed
/// surfaces, the frame re-arms, and the redraw notifications, in scan order.
pub open spec fn pass_from(m: StateModel, surfaces: Seq<ObjectId>, k: int, done: Set<ObjectId>) -> (
    Set<ObjectId>,
    Seq<ProtocolRequest>,
    Seq<SctkEvent>,
)
    decreases surfaces.len() - k,
{
    if k < 0 || k >= surfaces.len() {
        (done, Seq::empty(), Seq::empty())
    } else {
        let o = surfaces[k];
        if pass_fires(m, done, o) {
            let rest = pass_from(m, surfaces, k + 1, done.insert(o));
            (
                rest.0,
                seq![ProtocolRequest::RequestFrame { surface: o }] + rest.1,
                seq![SctkEvent::RedrawRequested(o)] + rest.2,
            )
        } else {
            pass_from(m, surfaces, k + 1, done)
        }
    }
}

/// What one redraw pass does, decided entirely against the state at its
/// start.
pub open spec fn pass_result(m: StateModel) -> (Set<ObjectId>, Seq<ProtocolRequest>, Seq<SctkEvent>) {
    pass_from(m, pass_surfaces(m), 0, Set::empty())
}

impl SctkState {

    /// Commits every surface whose record list says it is live, whose
    /// throttle is ready, and whose registry mapping still stands.
    ///
    /// First the coalesced recommits marked since the last pass go out, in
    /// mark order, and the marks are cleared. Then the live surfaces are
    /// scanned in order; each ready, registered one is committed exactly
    /// once: its readiness is consumed, a new frame callback is armed, and
    /// the consumer is asked to redraw it. A surface that is not ready, or
    /// whose mapping was already forgotten, is left alone.
    pub fn redraw_pass(&mut self) -> (out: StepOutput)
        requires
            old(self).wf(),
        ensures
            final(self).wf(),
            ({
                let r = pass_result(old(self)@);
                &&& final(self)@ == (StateModel {
                    to_commit: Seq::<crate::state::CommitMark>::empty(),
                    frame_status: final(self)@.frame_status,
                    ..old(self)@
                })
                &&& forall|o: ObjectId|
                    seq_status_of(final(self)@.frame_status, o) == if r.0.contains(o) {
                        FrameStatus::Received
                    } else {
                        seq_status_of(old(self)@.frame_status, o)
                    }
                &&& out.requests@ == commit_mark_requests(old(self)@.to_commit) + r.1
                &&& out.events@ == r.2
            }),
    {
        let ghost pre = old(self)@;
        let ghost surfs = pass_surfaces(pre);
        let mut out = StepOutput::new();

        let mut c: usize = 0;
        while c < self.to_commit.len()
            invariant
                c <= self.to_commit@.len(),
                self == old(self),
                out.requests@ =~= commit_mark_requests(self.to_commit@.subrange(0, c as int)),
                out.events@ == Seq::<SctkEvent>::empty(),
            decreases self.to_commit@.len() - c,
        {
            let surface = self.to_commit[c].surface;
            out.requests.push(ProtocolRequest::Commit { surface });
            proof {
                assert(self.to_commit@.subrange(0, c + 1).drop_last() =~= self.to_commit@.subrange(
                    0,
                    c as int,
                ));
                assert(out.requests@ =~= commit_mark_requests(
                    self.to_commit@.subrange(0, c + 1),
                ));
            }
            c += 1;
        }
        proof {
            assert(self.to_commit@.subrange(0, self.to_commit@.len() as int) =~= self.to_commit@);
        }
        self.to_commit.clear();
        let ghost done0: Set<ObjectId> = Set::empty();

        let ghost total = pass_from(pre, surfs, 0, Set::<ObjectId>::empty());
        let mut done: Ghost<Set<ObjectId>> = Ghost(done0);
        let mut i: usize = 0;
        let n_layers = self.layer_surfaces.len();
        let n_popups = self.popups.len();
        let n_locks = self.lock_surfaces.len();
        let ghost base_reqs = out.requests@;
        while i < n_layers
            invariant
                i <= n_layers,
                n_layers == self@.layer_surfaces.len(),
                n_popups == self@.popups.len(),
                n_locks == self@.lock_surfaces.len(),
                self.wf(),
                self@ == (StateModel {
                    to_commit: Seq::<crate::state::CommitMark>::empty(),
                    frame_status: self@.frame_status,
                    ..pre
                }),
                surfs == pass_surfaces(pre),
                total == pass_from(pre, surfs, 0, Set::<ObjectId>::empty()),
                forall|o: ObjectId|
                    seq_status_of(self@.frame_status, o) == if done@.contains(o) {
                        FrameStatus::Received
                    } else {
                        seq_status_of(pre.frame_status, o)
                    },
                out.requests@ + pass_from(pre, surfs, i as int, done@).1 == base_reqs + total.1,
                out.events@ + pass_from(pre, surfs, i as int, done@).2 == total.2,
                pass_from(pre, surfs, i as int, done@).0 == total.0,
            decreases n_layers - i,
        {
            let surface = self.layer_surfaces[i].surface;
            proof {
                assert(surfs[i as int] == surface);
            }
            self.scan_one(surface, Ghost(pre), Ghost(surfs), Ghost(i as int), &mut done, &mut out, Ghost(total), Ghost(base_reqs));
            i += 1;
        }
        let mut j: usize = 0;
        while j < n_popups
            invariant
                j <= n_popups,
                n_layers == self@.layer_surfaces.len(),
                n_popups == self@.popups.len(),
                n_locks == self@.lock_surfaces.len(),
                self.wf(),
                self@ == (StateModel {
                    to_commit: Seq::<crate::state::CommitMark>::empty(),
                    frame_status: self@.frame_status,
                    ..pre
                }),
                surfs == pass_surfaces(pre),
                total == pass_from(pre, surfs, 0, Set::<ObjectId>::empty()),
                forall|o: ObjectId|
                    seq_status_of(self@.frame_status, o) == if done@.contains(o) {
                        FrameStatus::Received
                    } else {
                        seq_status_of(pre.frame_status, o)
                    },
                out.requests@ + pass_from(pre, surfs, n_layers + j as int, done@).1 == base_reqs + total.1,
                out.events@ + pass_from(pre, surfs, n_layers + j as int, done@).2 == total.2,
                pass_from(pre, surfs, n_layers + j as int, done@).0 == total.0,
            decreases n_popups - j,
        {
            let surface = self.popups[j].surface;
            proof {
                assert(surfs[n_layers + j as int] == surface);
            }
            self.scan_one(surface, Ghost(pre), Ghost(surfs), Ghost(n_layers + j as int), &mut done, &mut out, Ghost(total), Ghost(base_reqs));
            j += 1;
        }
        let mut k: usize = 0;
        while k < n_locks
            invariant
                k <= n_locks,
                n_layers == self@.layer_surfaces.len(),
                n_popups == self@.popups.len(),
                n_locks == self@.lock_surfaces.len(),
                self.wf(),
                self@ == (StateModel {
                    to_commit: Seq::<crate::state::CommitMark>::empty(),
                    frame_status: self@.frame_status,
                    ..pre
                }),
                surfs == pass_surfaces(pre),
                total == pass_from(pre, surfs, 0, Set::<ObjectId>::empty()),
                forall|o: ObjectId|
                    seq_status_of(self@.frame_status, o) == if done@.contains(o) {
                        FrameStatus::Received
                    } else {
                        seq_status_of(pre.frame_status, o)
                    },
                out.requests@ + pass_from(pre, surfs, n_layers + n_popups + k as int, done@).1 == base_reqs + total.1,
                out.events@ + pass_from(pre, surfs, n_layers + n_popups + k as int, done@).2 == total.2,
                pass_from(pre, surfs, n_layers + n_popups + k as int, done@).0 == total.0,
            decreases n_locks - k,
        {
            let surface = self.lock_surfaces[k].surface;
            proof {
                assert(surfs[n_layers + n_popups + k as int] == surface);
            }
            self.scan_one(surface, Ghost(pre), Ghost(surfs), Ghost(n_layers + n_popups + k as int), &mut done, &mut out, Ghost(total), Ghost(base_reqs));
            k += 1;
        }
        proof {
            assert(pass_from(pre, surfs, surfs.len() as int, done@) == (
                done@,
                Seq::<ProtocolRequest>::empty(),
                Seq::<SctkEvent>::empty(),
            ));
            assert(out.requests@ =~= out.requests@ + Seq::<ProtocolRequest>::empty());
            assert(out.events@ =~= out.events@ + Seq::<SctkEvent>::empty());
        }
        out
    }

    /// One step of the redraw scan: commits `surface`, the surface at scan
    /// position `pos`, when its throttle is ready and it is still
    /// registered.
    fn scan_one(
        &mut self,
        surface: ObjectId,
        Ghost(pre): Ghost<StateModel>,
        Ghost(surfs): Ghost<Seq<ObjectId>>,
        Ghost(pos): Ghost<int>,
        done: &mut Ghost<Set<ObjectId>>,
        out: &mut StepOutput,
        Ghost(total): Ghost<(Set<ObjectId>, Seq<ProtocolRequest>, Seq<SctkEvent>)>,
        Ghost(base_reqs): Ghost<Seq<ProtocolRequest>>,
    )
        requires
            old(self).wf(),
            0 <= pos < surfs.len(),
            surfs[pos] == surface,
            old(self)@ == (StateModel {
                to_commit: Seq::<crate::state::CommitMark>::empty(),
                frame_status: old(self)@.frame_status,
                ..pre
            }),
            total == pass_from(pre, surfs, 0, Set::<ObjectId>::empty()),
            forall|o: ObjectId|
                seq_status_of(old(self)@.frame_status, o) == if old(done)@.contains(o) {
                    FrameStatus::Received
                } else {
                    seq_status_of(pre.frame_status, o)
                },
            old(out).requests@ + pass_from(pre, surfs, pos, old(done)@).1 == base_reqs + total.1,
            old(out).events@ + pass_from(pre, surfs, pos, old(done)@).2 == total.2,
            pass_from(pre, surfs, pos, old(done)@).0 == total.0,
        ensures
            final(self).wf(),
            final(self)@ == (StateModel {
                to_commit: Seq::<crate::state::CommitMark>::empty(),
                frame_status: final(self)@.frame_status,
                ..pre
            }),
            forall|o: ObjectId|
                seq_status_of(final(self)@.frame_status, o) == if final(done)@.contains(o) {
                    FrameStatus::Received
                } else {
                    seq_status_of(pre.frame_status, o)
                },
            final(out).requests@ + pass_from(pre, surfs, pos + 1, final(done)@).1 == base_reqs
                + total.1,
            final(out).events@ + pass_from(pre, surfs, pos + 1, final(done)@).2 == total.2,
            pass_from(pre, surfs, pos + 1, final(done)@).0 == total.0,
    {
        let ready = self.frame_status.is_ready(surface);
        let registered = match self.id_map.resolve(surface) {
            Some(_) => true,
            None => false,
        };
        let ghost fires = pass_fires(pre, old(done)@, surface);
        proof {
            if old(done)@.contains(surface) {
                assert(!ready);
            }
            assert((ready && registered) == fires);
        }
        if ready && registered {
            self.frame_status.commit(surface);
            proof {
                assert forall|o: ObjectId| o != surface implies seq_status_of(
                    self@.frame_status,
                    o,
                ) == seq_status_of(old(self)@.frame_status, o) by {
                    assert(self.frame_status.status_of(o) == old(self).frame_status.status_of(o));
                }
                assert(seq_status_of(self@.frame_status, surface) == (FrameStatus::Received)) by {
                    assert(self.frame_status.status_of(surface) == (FrameStatus::Received));
                }
                *done = Ghost(old(done)@.insert(surface));
            }
            out.requests.push(ProtocolRequest::RequestFrame { surface });
            out.events.push(SctkEvent::RedrawRequested(surface));
            proof {
                let before = pass_from(pre, surfs, pos, old(done)@);
                let after = pass_from(pre, surfs, pos + 1, done@);
                assert(before.1 == seq![ProtocolRequest::RequestFrame { surface }] + after.1);
                assert(before.2 == seq![SctkEvent::RedrawRequested(surface)] + after.2);
                assert(out.requests@ + after.1 =~= old(out).requests@ + before.1);
                assert(out.events@ + after.2 =~= old(out).events@ + before.2);
            }
        } else {
            proof {
                assert(pass_from(pre, surfs, pos, done@) == pass_from(pre, surfs, pos + 1, done@));
            }
        }
    }

    /// Records a new scale for whichever surface record owns `surface`.
    /// The scale is in 120ths; `legacy` marks the integer path, which is
    /// ignored for surfaces with a fractional-scale object bound.
    #[verifier::rlimit(50)]
    pub fn scale_factor_changed(&mut self, surface: ObjectId, scale_120: u32, legacy: bool) -> (
        out: StepOutput)
        requires
            old(self).wf(),
        ensures
            final(self).wf(),
            scale_factor_changed_post(
                old(self)@,
                final(self)@,
                surface,
                scale_120,
                legacy,
                out.requests@,
                out.events@,
            ),
    {
        let mut out = StepOutput::new();
        match self.find_popup_index_by_surface(surface) {
            Some(i) => {
                if legacy && self.popups[i].has_fractional_scale {
                    return out;
                }
                let mut rec = self.popups.remove(i);
                rec.common.fractional_scale = Some(scale_120);
                self.popups.insert(i, rec);
                proof {
                    assert(self.popups@ =~= old(self)@.popups.update(
                        i as int,
                        PopupRecord {
                            common: Common {
                                fractional_scale: Some(scale_120),
                                ..old(self)@.popups[i as int].common
                            },
                            ..old(self)@.popups[i as int]
                        },
                    ));
                    assert(forall|k: int|
                        0 < k < self.popups@.len() ==> (#[trigger] self.popups@[k]).parent == (
                        PopupParent::Popup(self.popups@[k - 1].surface)));
                }
                if legacy {
                    out.requests.push(
                        ProtocolRequest::SetBufferScale { surface, scale: scale_120 / 120 },
                    );
                }
                out.events.push(SctkEvent::SurfaceScaleFactorChanged(scale_120, surface, rec.id));
                return out;
            }
            None => {}
        }
        match self.find_layer_index_by_surface(surface) {
            Some(i) => {
                if legacy && self.layer_surfaces[i].has_fractional_scale {
                    return out;
                }
                let mut rec = self.layer_surfaces.remove(i);
                rec.common.fractional_scale = Some(scale_120);
                self.layer_surfaces.insert(i, rec);
                proof {
                    assert(self.layer_surfaces@ =~= old(self)@.layer_surfaces.update(
                        i as int,
                        LayerSurfaceRecord {
                            common: Common {
                                fractional_scale: Some(scale_120),
                                ..old(self)@.layer_surfaces[i as int].common
                            },
                            ..old(self)@.layer_surfaces[i as int]
                        },
                    ));
                }
                if legacy {
                    out.requests.push(
                        ProtocolRequest::SetBufferScale { surface, scale: scale_120 / 120 },
                    );
                }
                out.events.push(SctkEvent::SurfaceScaleFactorChanged(scale_120, surface, rec.id));
                return out;
            }
            None => {}
        }
        match self.find_lock_index_by_surface(surface) {
            Some(i) => {
                if legacy && self.lock_surfaces[i].has_fractional_scale {
                    return out;
                }
                let mut rec = self.lock_surfaces.remove(i);
                rec.common.fractional_scale = Some(scale_120);
                self.lock_surfaces.insert(i, rec);
                proof {
                    assert(self.lock_surfaces@ =~= old(self)@.lock_surfaces.update(
                        i as int,
                        LockSurfaceRecord {
                            common: Common {
                                fractional_scale: Some(scale_120),
                                ..old(self)@.lock_surfaces[i as int].common
                            },
                            ..old(self)@.lock_surfaces[i as int]
                        },
                    ));
                }
                if legacy {
                    out.requests.push(
                        ProtocolRequest::SetBufferScale { surface, scale: scale_120 / 120 },
                    );
                }
                out.events.push(SctkEvent::SurfaceScaleFactorChanged(scale_120, surface, rec.id));
                return out;
            }
            None => {}
        }
        out
    }

    /// Handles one command drained from the channel.
    pub fn handle_command(&mut self, command: LoopCommand) -> (out: StepOutput)
        requires
            old(self).wf(),
            old(self).next_object_id < u64::MAX,
        ensures
            final(self).wf(),
            command_post(old(self)@, final(self)@, command, out.requests@, out.events@),
    {
        match command {
            LoopCommand::Action(action) => self.handle_action(action),
            LoopCommand::TrackWindow(id, surface) => {
                self.windows.push(WindowRecord { id, surface });
                StepOutput::new()
            }
            LoopCommand::RemoveWindow(id) => {
                self.remove_window(id);
                StepOutput::new()
            }
            LoopCommand::RequestRedraw(surface) => {
                self.frame_status.request_redraw(surface);
                proof {
                    assert forall|o: ObjectId| o != surface implies seq_status_of(
                        self@.frame_status,
                        o,
                    ) == seq_status_of(old(self)@.frame_status, o) by {
                        assert(self.frame_status.status_of(o) == old(self).frame_status.status_of(
                            o,
                        ));
                    }
                    assert(seq_status_of(self@.frame_status, surface) == step_request_redraw(
                        seq_status_of(old(self)@.frame_status, surface),
                    )) by {
                        assert(self.frame_status.status_of(surface) == step_request_redraw(
                            seq_status_of(old(self)@.frame_status, surface),
                        ));
                    }
                }
                StepOutput::new()
            }
            LoopCommand::Dropped(wrapper) => {
                let id = wrapper.inner();
                self.remove_destroyed(id);
                StepOutput::new()
            }
        }
    }

    /// Stops tracking every window with consumer id `id`.
    fn remove_window(&mut self, id: Id)
        requires
            old(self).wf(),
        ensures
            final(self).wf(),
            final(self)@ == (StateModel {
                windows: keep_windows(old(self)@.windows, id),
                ..old(self)@
            }),
    {
        let mut kept: Vec<WindowRecord> = Vec::new();
        let mut i: usize = 0;
        while i < self.windows.len()
            invariant
                i <= self.windows@.len(),
                keep_windows(self.windows@, id) == kept@ + keep_windows_from(
                    self.windows@,
                    id,
                    i as int,
                ),
            decreases self.windows@.len() - i,
        {
            let w = self.windows[i];
            if w.id != id {
                kept.push(w);
            }
            i += 1;
        }
        proof {
            assert(keep_windows_from(self.windows@, id, self.windows@.len() as int) =~= Seq::<
                WindowRecord,
            >::empty());
            assert(kept@ + Seq::<WindowRecord>::empty() =~= kept@);
        }
        self.windows = kept;
    }

    /// Handles one platform command.
    pub fn handle_action(&mut self, action: Action) -> (out: StepOutput)
        requires
            old(self).wf(),
            old(self).next_object_id < u64::MAX,
        ensures
            final(self).wf(),
            action_post(old(self)@, final(self)@, action, out.requests@, out.events@),
    {
        match action {
            Action::LayerSurface(a) => match a {
                LayerSurfaceAction::LayerSurface { builder } => self.create_layer_now(builder),
                LayerSurfaceAction::Size { id, width, height } => self.layer_surface_set_size(
                    id,
                    width,
                    height,
                ),
                LayerSurfaceAction::Destroy(id) => self.destroy_layer_surface(id),
                LayerSurfaceAction::Anchor { id, anchor } => self.layer_surface_set_anchor(
                    id,
                    anchor,
                ),
                LayerSurfaceAction::ExclusiveZone { id, exclusive_zone } => {
                    self.layer_surface_set_exclusive_zone(id, exclusive_zone)
                },
                LayerSurfaceAction::Margin { id, margin } => self.layer_surface_set_margin(
                    id,
                    margin,
                ),
                LayerSurfaceAction::KeyboardInteractivity { id, keyboard_interactivity } => {
                    self.layer_surface_set_keyboard_interactivity(id, keyboard_interactivity)
                },
                LayerSurfaceAction::Layer { id, layer } => self.layer_surface_set_layer(id, layer),
            },
            Action::Popup(a) => match a {
                PopupAction::Popup { popup } => self.popup_request(popup),
                PopupAction::Destroy { id } => self.destroy_popup(id),
                PopupAction::Size { id, width, height } => self.popup_set_size(id, width, height),
            },
            Action::Activation(a) => match a {
                ActivationAction::RequestToken { app_id, window } => self.request_token(
                    app_id,
                    window,
                ),
                ActivationAction::Activate { window, token } => self.activate(window, token),
            },
            Action::SessionLock(a) => match a {
                SessionLockAction::Lock => self.lock(),
                SessionLockAction::Unlock => self.unlock(),
                SessionLockAction::LockSurface { id, output } => self.get_lock_surface(id, output),
                SessionLockAction::DestroyLockSurface { id } => self.destroy_lock_surface(id),
            },
        }
    }

    /// Handles one compositor message.
    pub fn dispatch_event(&mut self, event: ProtocolEvent) -> (out: StepOutput)
        requires
            old(self).wf(),
            old(self).next_object_id < u64::MAX,
        ensures
            final(self).wf(),
            event_post(old(self)@, final(self)@, event, out.requests@, out.events@),
    {
        match event {
            ProtocolEvent::Frame(surface) => {
                self.frame_status.frame_callback(surface);
                proof {
                    assert forall|o: ObjectId| o != surface implies seq_status_of(
                        self@.frame_status,
                        o,
                    ) == seq_status_of(old(self)@.frame_status, o) by {
                        assert(self.frame_status.status_of(o) == old(self).frame_status.status_of(
                            o,
                        ));
                    }
                    assert(seq_status_of(self@.frame_status, surface) == step_frame_callback(
                        seq_status_of(old(self)@.frame_status, surface),
                    )) by {
                        assert(self.frame_status.status_of(surface) == step_frame_callback(
                            seq_status_of(old(self)@.frame_status, surface),
                        ));
                    }
                }
                StepOutput::new()
            }
            ProtocolEvent::LayerConfigure { surface, width, height } => self.layer_configure(
                surface,
                width,
                height,
            ),
            ProtocolEvent::LayerClosed { surface } => self.layer_closed(surface),
            ProtocolEvent::PopupConfigureEvent { surface, configure } => self.popup_configure(
                surface,
                configure,
            ),
            ProtocolEvent::PopupDone { surface } => self.popup_done(surface),
            ProtocolEvent::PopupRepositioned { surface, token } => {
                let mut out = StepOutput::new();
                match self.find_popup_index_by_surface(surface) {
                    Some(i) => {
                        let toplevel = self.popups[i].toplevel;
                        let parent_surface = self.popups[i].parent.wl_surface();
                        out.events.push(
                            SctkEvent::PopupEvent {
                                variant: PopupEventVariant::RepositionedPopup { token },
                                toplevel_id: toplevel,
                                parent_id: parent_surface,
                                id: surface,
                            },
                        );
                    }
                    None => {}
                }
                out
            }
            ProtocolEvent::LockSurfaceConfigureEvent { surface, width, height } => {
                self.lock_surface_configure(surface, width, height)
            },
            ProtocolEvent::SessionLockFinished => self.session_lock_finished(),
            ProtocolEvent::ScaleFactorChanged { surface, scale_120, legacy } => {
                self.scale_factor_changed(surface, scale_120, legacy)
            },
            ProtocolEvent::TokenDone { ticket, token } => self.token_done(ticket, token),
            ProtocolEvent::OutputAdded(output) => {
                let mut out = StepOutput::new();
                self.outputs.push(output);
                out.events.push(SctkEvent::NewOutput { id: output });
                out
            }
            ProtocolEvent::OutputUpdated(output) => {
                let mut out = StepOutput::new();
                out.events.push(SctkEvent::UpdateOutput { id: output });
                out
            }
            ProtocolEvent::OutputRemoved(output) => {
                let mut out = StepOutput::new();
                out.events.push(SctkEvent::RemovedOutput(output));
                out
            }
            ProtocolEvent::RetryTimer => self.retry_tick(),
        }
    }
}

} // verus!
