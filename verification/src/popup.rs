//! Popup operations.
//!
//! Popups nest strictly: a popup may only be created on top of the popup
//! that is currently topmost (or on a window or layer surface when no popup
//! is up), so the live popups always form one chain, kept bottom-to-top in
//! the stack. Destroying a popup therefore has to take down everything above
//! it first, deepest child first; and a creation whose parent is not the
//! topmost popup is deferred and retried a bounded number of times, after
//! proactively destroying whatever blocks it.

use vstd::prelude::*;
use crate::commands::PopupSettings;
use crate::events::{FailureReason, ProtocolRequest, SctkEvent, PopupEventVariant, StepOutput};
use crate::frame::{seq_status_of, step_frame_callback};
use crate::geometry::Size;
use crate::ids::{Id, ObjectId};
use crate::registry::lemma_entries_map_dom;
use crate::state::{
    find_layer, find_popup, find_window, insert_id, Common, PendingPopup, PopupParent,
    PopupRecord, SctkState, StateModel, MAX_POPUP_RETRIES,
};

verus! {

/// The destroy call for one popup.
pub open spec fn destroy_request_of(r: PopupRecord) -> ProtocolRequest {
    ProtocolRequest::DestroySurface { surface: r.surface }
}

/// The destroy notification for one popup.
pub open spec fn done_event_of(r: PopupRecord) -> SctkEvent {
    SctkEvent::PopupEvent {
        variant: PopupEventVariant::Done,
        toplevel_id: r.toplevel,
        parent_id: match r.parent {
            PopupParent::LayerSurface(o) => o,
            PopupParent::Window(o) => o,
            PopupParent::Popup(o) => o,
        },
        id: r.surface,
    }
}

/// What forgetting a chain of popups, topmost first, leaves of the registry
/// and the destroyed-id set.
pub open spec fn chain_forget(
    m: Map<ObjectId, Id>,
    d: Seq<Id>,
    chain: Seq<PopupRecord>,
) -> (Map<ObjectId, Id>, Seq<Id>)
    decreases chain.len(),
{
    if chain.len() == 0 {
        (m, d)
    } else {
        let last = chain.last();
        let m1 = m.remove(last.surface);
        let d1 = if m.dom().contains(last.surface) {
            insert_id(d, m[last.surface])
        } else {
            d
        };
        chain_forget(m1, d1, chain.drop_last())
    }
}

/// Whether `o` is the surface of some popup in `chain`.
pub open spec fn chain_has_surface(chain: Seq<PopupRecord>, o: ObjectId) -> bool {
    exists|k: int| 0 <= k < chain.len() && (#[trigger] chain[k]).surface == o
}


/// The parent a popup request resolves to, searched like any other lookup:
/// layer surfaces first, then tracked windows, then live popups. The second
/// component is the toplevel the chain roots at.
pub open spec fn resolve_popup_parent(s: StateModel, parent: Id) -> Option<(PopupParent, ObjectId)> {
    if find_layer(s.layer_surfaces, parent) is Some {
        let l = s.layer_surfaces[find_layer(s.layer_surfaces, parent)->0 as int];
        Some((PopupParent::LayerSurface(l.surface), l.surface))
    } else if find_window(s.windows, parent) is Some {
        let w = s.windows[find_window(s.windows, parent)->0 as int];
        Some((PopupParent::Window(w.surface), w.surface))
    } else if find_popup(s.popups, parent) is Some {
        let p = s.popups[find_popup(s.popups, parent)->0 as int];
        Some((PopupParent::Popup(p.surface), p.toplevel))
    } else {
        None
    }
}

/// Whether creating a popup under `parent_ref` keeps the stack one strictly
/// nested chain: on a popup only if that popup is topmost, on anything else
/// only if no popup is up.
pub open spec fn chain_ok(popups: Seq<PopupRecord>, parent_ref: PopupParent) -> bool {
    if popups.len() == 0 {
        !(parent_ref is Popup)
    } else {
        parent_ref == (PopupParent::Popup(popups.last().surface))
    }
}

/// The record a successful popup creation pushes.
pub open spec fn created_popup_record(
    settings: PopupSettings,
    surface: ObjectId,
    parent_ref: PopupParent,
    toplevel: ObjectId,
    viewporter: bool,
    fractional_scaling: bool,
) -> PopupRecord {
    let size = if settings.positioner.size is Some {
        settings.positioner.size->0
    } else {
        (1u32, 1u32)
    };
    PopupRecord {
        id: settings.id,
        surface,
        parent: parent_ref,
        toplevel,
        positioner: crate::commands::PositionerSettings {
            size: Some(size),
            ..settings.positioner
        },
        last_configure: None,
        has_fractional_scale: fractional_scaling,
        common: Common {
            fractional_scale: None,
            size: Size { width: size.0, height: size.1 },
            requested_size: (None, None),
            has_viewport: viewporter,
        },
    }
}

/// The ordered protocol calls a successful popup creation performs.
pub open spec fn popup_create_requests(
    settings: PopupSettings,
    surface: ObjectId,
    parent_surface: ObjectId,
    viewporter: bool,
    fractional_scaling: bool,
) -> Seq<ProtocolRequest> {
    let size = if settings.positioner.size is Some {
        settings.positioner.size->0
    } else {
        (1u32, 1u32)
    };
    seq![
        ProtocolRequest::CreatePopup {
            surface,
            parent: parent_surface,
            positioner: crate::commands::PositionerSettings {
                size: Some(size),
                ..settings.positioner
            },
        },
    ] + (if settings.grab {
        seq![ProtocolRequest::GrabPopup { surface }]
    } else {
        Seq::empty()
    }) + seq![
        ProtocolRequest::SetWindowGeometry { surface, width: size.0, height: size.1 },
        ProtocolRequest::RequestFrame { surface },
        ProtocolRequest::Commit { surface },
    ] + (if viewporter {
        seq![
            ProtocolRequest::GetViewport { surface },
            ProtocolRequest::SetViewportDestination { surface, width: size.0, height: size.1 },
        ]
    } else {
        Seq::empty()
    }) + (if fractional_scaling {
        seq![ProtocolRequest::GetFractionalScale { surface }]
    } else {
        Seq::empty()
    })
}

/// What handling a runnable popup creation does: on a live, topmost parent
/// the popup is created, its throttle is poked as if a frame arrived, and a
/// created notification is emitted; otherwise nothing changes but one
/// failure notification naming the popup's id, with `ParentMissing` when no
/// live surface carries the parent id and `ObjectCreationRejected` when the
/// parent is alive but creating on it would break strict nesting.
pub open spec fn create_popup_post(
    pre: StateModel,
    post: StateModel,
    settings: PopupSettings,
    reqs: Seq<ProtocolRequest>,
    evs: Seq<SctkEvent>,
) -> bool {
    match resolve_popup_parent(pre, settings.parent) {
        Some((parent_ref, toplevel)) => if !chain_ok(pre.popups, parent_ref) {
            post == pre && reqs == Seq::<ProtocolRequest>::empty() && evs == seq![
                SctkEvent::Failed {
                    id: settings.id,
                    reason: FailureReason::ObjectCreationRejected,
                },
            ]
        } else {
            let surface = ObjectId(pre.next_object_id);
            let parent_surface = match parent_ref {
                PopupParent::LayerSurface(o) => o,
                PopupParent::Window(o) => o,
                PopupParent::Popup(o) => o,
            };
            &&& post == (StateModel {
                popups: pre.popups.push(
                    created_popup_record(
                        settings,
                        surface,
                        parent_ref,
                        toplevel,
                        pre.caps.viewporter,
                        pre.caps.fractional_scaling,
                    ),
                ),
                id_map: pre.id_map.insert(surface, settings.id),
                next_object_id: (pre.next_object_id + 1) as u64,
                frame_status: post.frame_status,
                ..pre
            })
            &&& seq_status_of(post.frame_status, surface) == step_frame_callback(
                seq_status_of(pre.frame_status, surface),
            )
            &&& forall|o: ObjectId|
                o != surface ==> seq_status_of(post.frame_status, o) == seq_status_of(
                    pre.frame_status,
                    o,
                )
            &&& reqs == popup_create_requests(
                settings,
                surface,
                parent_surface,
                pre.caps.viewporter,
                pre.caps.fractional_scaling,
            )
            &&& evs == seq![
                SctkEvent::PopupEvent {
                    variant: PopupEventVariant::Created(surface, settings.id),
                    toplevel_id: toplevel,
                    parent_id: parent_surface,
                    id: surface,
                },
            ]
        },
        None => post == pre && reqs == Seq::<ProtocolRequest>::empty() && evs == seq![
            SctkEvent::Failed { id: settings.id, reason: FailureReason::ParentMissing },
        ],
    }
}

/// Whether a deferred creation may run: no destruction is in flight, and the
/// declared parent is the topmost popup, or no popup is up at all.
pub open spec fn parent_stable(s: StateModel, parent: Id) -> bool {
    s.popups.len() == 0 || s.popups.last().id == parent
}

/// Last index in `s`, below `upto`, whose popup has consumer id `id`.
pub open spec fn rfind_popup_before(s: Seq<PopupRecord>, id: Id, upto: int) -> Option<usize>
    decreases upto,
{
    if upto <= 0 || upto > s.len() {
        None
    } else if s[upto - 1].id == id {
        Some((upto - 1) as usize)
    } else {
        rfind_popup_before(s, id, upto - 1)
    }
}

/// Last index in `s` whose popup has consumer id `id`.
pub open spec fn rfind_popup(s: Seq<PopupRecord>, id: Id) -> Option<usize> {
    rfind_popup_before(s, id, s.len() as int)
}

/// The stack index from which blocking popups are cleared for a deferred
/// creation with parent `id`: everything above the last popup named `id`,
/// or the whole stack when no popup is named `id`.
pub open spec fn clear_from(s: Seq<PopupRecord>, id: Id) -> int {
    match rfind_popup(s, id) {
        Some(j) => j + 1,
        None => 0,
    }
}

/// One retry of a deferred creation whose parent is still unstable: below
/// the retry budget the attempt counter advances and the timer is re-armed;
/// at the budget the creation is dropped, once and for all.
pub open spec fn unstable_tick(p: PendingPopup) -> (Option<PendingPopup>, int) {
    if p.attempts < MAX_POPUP_RETRIES {
        (
            Some(PendingPopup { settings: p.settings, attempts: (p.attempts + 1) as u32 }),
            0int,
        )
    } else {
        (None, 1int)
    }
}

/// The pending slot and the total number of emitted failure notifications
/// after `k` retries during which the parent never stabilizes.
pub open spec fn unstable_ticks(p: Option<PendingPopup>, k: nat) -> (Option<PendingPopup>, int)
    decreases k,
{
    if k == 0 {
        (p, 0int)
    } else {
        match p {
            None => (None, 0int),
            Some(q) => {
                let s = unstable_tick(q);
                let rest = unstable_ticks(s.0, (k - 1) as nat);
                (rest.0, s.1 + rest.1)
            },
        }
    }
}

/// Popup creation retry bound: if the required parent never stabilizes, a
/// deferred creation with `a` attempts already spent survives exactly
/// another `MAX_POPUP_RETRIES - a` retries, then fails on the next one, and
/// over any number of further retries exactly one failure notification is
/// emitted: the creation never retries indefinitely and never fails twice.
pub proof fn lemma_popup_retry_bound(p: PendingPopup, k: nat)
    requires
        p.attempts <= MAX_POPUP_RETRIES,
    ensures
        k + p.attempts <= MAX_POPUP_RETRIES ==> unstable_ticks(Some(p), k) == (
            Some(PendingPopup { settings: p.settings, attempts: (p.attempts + k) as u32 }),
            0int,
        ),
        k + p.attempts > MAX_POPUP_RETRIES ==> unstable_ticks(Some(p), k) == (
            Option::<PendingPopup>::None,
            1int,
        ),
    decreases k,
{
    if k > 0 {
        if p.attempts < MAX_POPUP_RETRIES {
            lemma_popup_retry_bound(
                PendingPopup { settings: p.settings, attempts: (p.attempts + 1) as u32 },
                (k - 1) as nat,
            );
        } else {
            lemma_unstable_ticks_none((k - 1) as nat);
        }
    }
}

/// A slot that is already empty stays empty and never fails again.
pub proof fn lemma_unstable_ticks_none(k: nat)
    ensures
        unstable_ticks(None, k) == (Option::<PendingPopup>::None, 0int),
    decreases k,
{
    if k > 0 {
        lemma_unstable_ticks_none((k - 1) as nat);
    }
}

/// What a popup creation command does. On a quiet stack with the parent
/// topmost, the creation runs at once. Otherwise everything stacked above
/// the declared parent is destroyed, deepest first, the creation is parked
/// with a fresh retry budget, and the timer is armed unless one was already
/// pending.
pub open spec fn popup_request_post(
    pre: StateModel,
    post: StateModel,
    settings: PopupSettings,
    reqs: Seq<ProtocolRequest>,
    evs: Seq<SctkEvent>,
) -> bool {
    if pre.destroyed.len() == 0 && parent_stable(pre, settings.parent) {
        &&& post == (StateModel {
            pending_popup: None,
            popups: post.popups,
            id_map: post.id_map,
            next_object_id: post.next_object_id,
            frame_status: post.frame_status,
            ..pre
        })
        &&& create_popup_post(
            (StateModel { pending_popup: None, ..pre }),
            post,
            settings,
            reqs,
            evs,
        )
    } else {
        ({
            let kept = clear_from(pre.popups, settings.parent);
            let chain = pre.popups.subrange(
                kept,
                pre.popups.len() as int,
            );
            let forgotten = chain_forget(pre.id_map, pre.destroyed, chain);
            let armed = pre.pending_popup is None;
            &&& post == (StateModel {
                popups: pre.popups.subrange(0, kept),
                id_map: forgotten.0,
                destroyed: forgotten.1,
                frame_status: post.frame_status,
                pending_popup: Some(PendingPopup { settings, attempts: 0u32 }),
                ..pre
            })
            &&& forall|o: ObjectId|
                !chain_has_surface(chain, o) ==> seq_status_of(
                    post.frame_status,
                    o,
                ) == seq_status_of(pre.frame_status, o)
            &&& reqs == chain.reverse().map(
                |k: int, r: PopupRecord| destroy_request_of(r),
            ) + if armed {
                seq![ProtocolRequest::ScheduleRetry]
            } else {
                Seq::<ProtocolRequest>::empty()
            }
            &&& evs == chain.reverse().map(
                |k: int, r: PopupRecord| done_event_of(r),
            )
        })
    }
}

/// What one firing of the retry timer does: nothing when nothing is
/// parked; a bounded retry while the parent is unstable, failing exactly
/// once at the budget; the creation itself as soon as the parent is
/// topmost and no destruction is in flight.
pub open spec fn retry_tick_post(
    pre: StateModel,
    post: StateModel,
    reqs: Seq<ProtocolRequest>,
    evs: Seq<SctkEvent>,
) -> bool {
    match pre.pending_popup {
        None => post == pre && reqs == Seq::<
            ProtocolRequest,
        >::empty() && evs == Seq::<SctkEvent>::empty(),
        Some(p) => {
            if pre.destroyed.len() == 0 && parent_stable(
                pre,
                p.settings.parent,
            ) {
                &&& post == (StateModel {
                    pending_popup: None,
                    popups: post.popups,
                    id_map: post.id_map,
                    next_object_id: post.next_object_id,
                    frame_status: post.frame_status,
                    ..pre
                })
                &&& create_popup_post(
                    (StateModel { pending_popup: None, ..pre }),
                    post,
                    p.settings,
                    reqs,
                    evs,
                )
            } else {
                ({
                    let step = unstable_tick(p);
                    &&& post == (StateModel {
                        pending_popup: step.0,
                        ..pre
                    })
                    &&& reqs == if step.0 is Some {
                        seq![ProtocolRequest::ScheduleRetry]
                    } else {
                        Seq::<ProtocolRequest>::empty()
                    }
                    &&& evs == if step.1 == 1 {
                        seq![
                            SctkEvent::Failed {
                                id: p.settings.id,
                                reason: FailureReason::ParentMissing,
                            },
                        ]
                    } else {
                        Seq::<SctkEvent>::empty()
                    }
                })
            }
        },
    }
}

/// What a popup resize does: nothing for an unknown id or an unchanged
/// positioner size; otherwise the positioner is updated and re-issued with
/// a fresh repositioning token, and the consumer sees one size
/// notification.
pub open spec fn popup_set_size_post(
    pre: StateModel,
    post: StateModel,
    id: Id, width: u32, height: u32,
    reqs: Seq<ProtocolRequest>,
    evs: Seq<SctkEvent>,
) -> bool {
    match find_popup(pre.popups, id) {
        Some(i) => {
            let rec = pre.popups[i as int];
            if rec.positioner.size == Some((width, height)) {
                post == pre && reqs == Seq::<
                    ProtocolRequest,
                >::empty() && evs == Seq::<SctkEvent>::empty()
            } else {
                let parent_surface = match rec.parent {
                    PopupParent::LayerSurface(o) => o,
                    PopupParent::Window(o) => o,
                    PopupParent::Popup(o) => o,
                };
                &&& post == (StateModel {
                    popups: pre.popups.update(
                        i as int,
                        PopupRecord {
                            positioner: crate::commands::PositionerSettings {
                                size: Some((width, height)),
                                ..rec.positioner
                            },
                            ..rec
                        },
                    ),
                    reposition_token_ctr: (
                        (pre.reposition_token_ctr + 1) % 0x1_0000_0000
                    ) as u32,
                    ..pre
                })
                &&& reqs == seq![
                    ProtocolRequest::SetWindowGeometry {
                        surface: rec.surface,
                        width,
                        height,
                    },
                    ProtocolRequest::SetPositionerSize {
                        surface: rec.surface,
                        width,
                        height,
                    },
                    ProtocolRequest::RepositionPopup {
                        surface: rec.surface,
                        token: pre.reposition_token_ctr,
                    },
                ]
                &&& evs == seq![
                    SctkEvent::PopupEvent {
                        variant: PopupEventVariant::Size(width, height),
                        toplevel_id: parent_surface,
                        parent_id: parent_surface,
                        id: rec.surface,
                    },
                ]
            }
        },
        None => post == pre && reqs == Seq::<
            ProtocolRequest,
        >::empty() && evs == Seq::<SctkEvent>::empty(),
    }
}

/// What a popup configure does: the throttle is asked for a redraw, the
/// configure is recorded, and the consumer is told, with the first
/// configure marked.
pub open spec fn popup_configure_event_post(
    pre: StateModel,
    post: StateModel,
    surface: ObjectId, configure: crate::events::PopupConfigure,
    reqs: Seq<ProtocolRequest>,
    evs: Seq<SctkEvent>,
) -> bool {
    &&& reqs == Seq::<ProtocolRequest>::empty()
    &&& seq_status_of(post.frame_status, surface) == crate::frame::step_request_redraw(
        seq_status_of(pre.frame_status, surface),
    )
    &&& forall|o: ObjectId|
        o != surface ==> seq_status_of(post.frame_status, o) == seq_status_of(
            pre.frame_status,
            o,
        )
    &&& match crate::state::find_popup_by_surface(pre.popups, surface) {
        Some(i) => {
            let rec = pre.popups[i as int];
            let parent_surface = match rec.parent {
                PopupParent::LayerSurface(o) => o,
                PopupParent::Window(o) => o,
                PopupParent::Popup(o) => o,
            };
            &&& post == (StateModel {
                popups: pre.popups.update(
                    i as int,
                    PopupRecord { last_configure: Some(configure), ..rec },
                ),
                frame_status: post.frame_status,
                ..pre
            })
            &&& evs == seq![
                SctkEvent::PopupEvent {
                    variant: PopupEventVariant::Configure(
                        configure,
                        surface,
                        rec.last_configure is None,
                    ),
                    toplevel_id: rec.toplevel,
                    parent_id: parent_surface,
                    id: surface,
                },
            ]
        },
        None => post == (StateModel {
            frame_status: post.frame_status,
            ..pre
        }) && evs == Seq::<SctkEvent>::empty(),
    }
}

/// What the compositor dismissing a popup does: the popup and everything
/// nested above it are destroyed, deepest child first.
pub open spec fn popup_done_post(
    pre: StateModel,
    post: StateModel,
    surface: ObjectId,
    reqs: Seq<ProtocolRequest>,
    evs: Seq<SctkEvent>,
) -> bool {
    match crate::state::find_popup_by_surface(pre.popups, surface) {
        Some(i) => {
            let chain = pre.popups.subrange(
                i as int,
                pre.popups.len() as int,
            );
            let forgotten = chain_forget(pre.id_map, pre.destroyed, chain);
            &&& post == (StateModel {
                popups: pre.popups.subrange(0, i as int),
                id_map: forgotten.0,
                destroyed: forgotten.1,
                frame_status: post.frame_status,
                ..pre
            })
            &&& evs.len() == chain.len()
            &&& forall|k: int|
                0 <= k < chain.len() ==> evs[k] == done_event_of(
                    chain[chain.len() - 1 - k],
                )
            &&& reqs.len() == chain.len()
            &&& forall|k: int|
                0 <= k < chain.len() ==> reqs[k] == destroy_request_of(
                    chain[chain.len() - 1 - k],
                )
        },
        None => post == pre && reqs == Seq::<
            ProtocolRequest,
        >::empty() && evs == Seq::<SctkEvent>::empty(),
    }
}

pub open spec fn destroy_popups_from_post(
    pre: StateModel,
    post: StateModel,
    from: int,
    reqs: Seq<ProtocolRequest>,
    evs: Seq<SctkEvent>,
) -> bool {
    ({
        let chain = pre.popups.subrange(from as int, pre.popups.len() as int);
        let forgotten = chain_forget(pre.id_map, pre.destroyed, chain);
        &&& post == (StateModel {
            popups: pre.popups.subrange(0, from as int),
            id_map: forgotten.0,
            destroyed: forgotten.1,
            frame_status: post.frame_status,
            ..pre
        })
        &&& forall|o: ObjectId|
            !chain_has_surface(chain, o) ==> seq_status_of(post.frame_status, o)
                == seq_status_of(pre.frame_status, o)
        &&& reqs.len() == chain.len()
        &&& forall|k: int|
            0 <= k < chain.len() ==> reqs[k] == destroy_request_of(
                chain[chain.len() - 1 - k],
            )
        &&& evs.len() == chain.len()
        &&& forall|k: int|
            0 <= k < chain.len() ==> evs[k] == done_event_of(
                chain[chain.len() - 1 - k],
            )
    })
}


/// What destroying the popup named `id` does: nothing for an unknown id;
/// otherwise the popup and everything nested above it go away, notified
/// deepest child first.
pub open spec fn popup_destroy_post(
    pre: StateModel,
    post: StateModel,
    id: Id,
    reqs: Seq<ProtocolRequest>,
    evs: Seq<SctkEvent>,
) -> bool {
    match find_popup(pre.popups, id) {
        Some(i) => destroy_popups_from_post(pre, post, i as int, reqs, evs),
        None => post == pre && reqs == Seq::<ProtocolRequest>::empty() && evs == Seq::<
            SctkEvent,
        >::empty(),
    }
}

impl SctkState {

    /// Creates a popup under the parent named in `settings`.
    ///
    /// The parent id is looked up among layer surfaces, tracked windows and
    /// live popups, in that order. Creation is refused with `ParentMissing`
    /// exactly when no live surface carries the parent id, and with
    /// `ObjectCreationRejected` when the parent is alive but creating on it
    /// would break strict nesting: a popup parent must be the topmost popup,
    /// any other parent requires that no popup is up. On success a fresh
    /// protocol object is allocated and registered, the record is pushed on
    /// the stack, and the creation calls are issued in order.
    #[verifier::rlimit(100)]
    pub fn get_popup(&mut self, settings: PopupSettings) -> (r: (
        Result<ObjectId, FailureReason>,
        StepOutput,
    ))
        requires
            old(self).wf(),
            old(self).next_object_id < u64::MAX,
        ensures
            final(self).wf(),
            r.1.events@ == Seq::<SctkEvent>::empty(),
            match resolve_popup_parent(old(self)@, settings.parent) {
                Some((parent_ref, toplevel)) => if !chain_ok(
                    old(self)@.popups,
                    parent_ref,
                ) {
                    r.0 == Err::<ObjectId, FailureReason>(
                        FailureReason::ObjectCreationRejected,
                    ) && final(self)@ == old(self)@ && r.1.requests@ == Seq::<
                        ProtocolRequest,
                    >::empty()
                } else {
                    let surface = ObjectId(old(self).next_object_id);
                    let parent_surface = match parent_ref {
                        PopupParent::LayerSurface(o) => o,
                        PopupParent::Window(o) => o,
                        PopupParent::Popup(o) => o,
                    };
                    &&& r.0 == Ok::<ObjectId, FailureReason>(surface)
                    &&& final(self)@ == (StateModel {
                        popups: old(self)@.popups.push(
                            created_popup_record(
                                settings,
                                surface,
                                parent_ref,
                                toplevel,
                                old(self).caps.viewporter,
                                old(self).caps.fractional_scaling,
                            ),
                        ),
                        id_map: old(self)@.id_map.insert(surface, settings.id),
                        next_object_id: (old(self).next_object_id + 1) as u64,
                        ..old(self)@
                    })
                    &&& r.1.requests@ == popup_create_requests(
                        settings,
                        surface,
                        parent_surface,
                        old(self).caps.viewporter,
                        old(self).caps.fractional_scaling,
                    )
                },
                None => r.0 == Err::<ObjectId, FailureReason>(FailureReason::ParentMissing)
                    && final(self)@ == old(self)@ && r.1.requests@ == Seq::<
                    ProtocolRequest,
                >::empty(),
            },
    {
        let mut out = StepOutput::new();
        let parent_info: Option<(PopupParent, ObjectId)> = match self.find_layer_index(
            settings.parent,
        ) {
            Some(i) => {
                let l = &self.layer_surfaces[i];
                Some((PopupParent::LayerSurface(l.surface), l.surface))
            }
            None => match self.find_window_index(settings.parent) {
                Some(i) => {
                    let w = &self.windows[i];
                    Some((PopupParent::Window(w.surface), w.surface))
                }
                None => match self.find_popup_index(settings.parent) {
                    Some(i) => {
                        let p = &self.popups[i];
                        Some((PopupParent::Popup(p.surface), p.toplevel))
                    }
                    None => None,
                },
            },
        };
        let (parent_ref, toplevel) = match parent_info {
            Some(pi) => pi,
            None => {
                return (Err(FailureReason::ParentMissing), out);
            }
        };
        let nesting_ok = if self.popups.len() == 0 {
            match parent_ref {
                PopupParent::Popup(_) => false,
                _ => true,
            }
        } else {
            match parent_ref {
                PopupParent::Popup(o) => self.popups[self.popups.len() - 1].surface == o,
                _ => false,
            }
        };
        proof {
            assert(resolve_popup_parent(old(self)@, settings.parent) == Some(
                (parent_ref, toplevel),
            ));
            assert(nesting_ok == chain_ok(old(self)@.popups, parent_ref));
        }
        if !nesting_ok {
            return (Err(FailureReason::ObjectCreationRejected), out);
        }

        let surface = ObjectId(self.next_object_id);
        self.next_object_id = self.next_object_id + 1;
        proof {
            lemma_entries_map_dom(self.id_map.entries@);
        }
        let reg = self.id_map.register(surface, settings.id);
        proof {
            assert(reg is Ok);
        }
        let (width, height) = match settings.positioner.size {
            Some(s) => s,
            None => (1, 1),
        };
        let mut positioner = settings.positioner;
        positioner.size = Some((width, height));
        let record = PopupRecord {
            id: settings.id,
            surface,
            parent: parent_ref,
            toplevel,
            positioner,
            last_configure: None,
            has_fractional_scale: self.caps.fractional_scaling,
            common: Common {
                fractional_scale: None,
                size: Size { width, height },
                requested_size: (None, None),
                has_viewport: self.caps.viewporter,
            },
        };
        let parent_surface = parent_ref.wl_surface();
        out.requests.push(
            ProtocolRequest::CreatePopup {
                surface,
                parent: parent_surface,
                positioner,
            },
        );
        if settings.grab {
            out.requests.push(ProtocolRequest::GrabPopup { surface });
        }
        out.requests.push(ProtocolRequest::SetWindowGeometry { surface, width, height });
        out.requests.push(ProtocolRequest::RequestFrame { surface });
        out.requests.push(ProtocolRequest::Commit { surface });
        if self.caps.viewporter {
            out.requests.push(ProtocolRequest::GetViewport { surface });
            out.requests.push(ProtocolRequest::SetViewportDestination { surface, width, height });
        }
        if self.caps.fractional_scaling {
            out.requests.push(ProtocolRequest::GetFractionalScale { surface });
        }
        self.popups.push(record);
        proof {
            assert(out.requests@ =~= popup_create_requests(
                settings,
                surface,
                parent_surface,
                old(self).caps.viewporter,
                old(self).caps.fractional_scaling,
            ));
            assert(forall|i: int|
                0 < i < self.popups@.len() ==> (#[trigger] self.popups@[i]).parent == (
                PopupParent::Popup(self.popups@[i - 1].surface)));
        }
        (Ok(surface), out)
    }

    /// Runs a popup creation that is due now: on success the throttle is
    /// poked as if a frame arrived and a created notification is emitted; a
    /// refused creation leaves everything unchanged and emits one failure
    /// notification naming the popup's id.
    pub fn create_popup_now(&mut self, settings: PopupSettings) -> (out: StepOutput)
        requires
            old(self).wf(),
            old(self).next_object_id < u64::MAX,
        ensures
            final(self).wf(),
            create_popup_post(old(self)@, final(self)@, settings, out.requests@, out.events@),
    {
        let (res, mut out) = self.get_popup(settings);
        match res {
            Ok(surface) => {
                let ghost mid = self@;
                self.frame_status.frame_callback(surface);
                proof {
                    assert forall|o: ObjectId| o != surface implies seq_status_of(
                        self@.frame_status,
                        o,
                    ) == seq_status_of(mid.frame_status, o) by {
                        assert(self.frame_status.status_of(o) == seq_status_of(
                            mid.frame_status,
                            o,
                        ));
                    }
                    assert(seq_status_of(self@.frame_status, surface) == step_frame_callback(
                        seq_status_of(mid.frame_status, surface),
                    )) by {
                        assert(self.frame_status.status_of(surface) == step_frame_callback(
                            seq_status_of(mid.frame_status, surface),
                        ));
                    }
                }
                let toplevel = self.popups[self.popups.len() - 1].toplevel;
                let parent_surface = self.popups[self.popups.len() - 1].parent.wl_surface();
                out.events.push(
                    SctkEvent::PopupEvent {
                        variant: PopupEventVariant::Created(surface, settings.id),
                        toplevel_id: toplevel,
                        parent_id: parent_surface,
                        id: surface,
                    },
                );
                out
            }
            Err(reason) => {
                out.events.push(SctkEvent::Failed { id: settings.id, reason });
                out
            }
        }
    }


    /// Finds the highest stack index whose popup has consumer id `id`.
    fn rfind_popup_index(&self, id: Id) -> (r: Option<usize>)
        ensures
            r == rfind_popup(self.popups@, id),
            match r {
                Some(j) => j < self.popups@.len() && self.popups@[j as int].id == id,
                None => true,
            },
    {
        let mut upto: usize = self.popups.len();
        while upto > 0
            invariant
                upto <= self.popups@.len(),
                rfind_popup(self.popups@, id) == rfind_popup_before(self.popups@, id, upto as int),
            decreases upto,
        {
            if self.popups[upto - 1].id == id {
                return Some(upto - 1);
            }
            upto -= 1;
        }
        None
    }

    /// Whether the deferred-creation gate is open for `parent`: nothing
    /// destroyed is still in flight and the parent is the topmost popup, or
    /// no popup is up.
    fn creation_unblocked(&self, parent: Id) -> (r: bool)
        ensures
            r == (self.destroyed@.len() == 0 && parent_stable(self@, parent)),
    {
        if self.destroyed.len() > 0 {
            return false;
        }
        if self.popups.len() == 0 {
            return true;
        }
        self.popups[self.popups.len() - 1].id == parent
    }

    /// Handles a popup creation command.
    ///
    /// When the stack is quiet and the parent is topmost (or no popup is
    /// up), the popup is created at once. Otherwise the request is deferred:
    /// any popups stacked above the declared parent are proactively
    /// destroyed, since an orphaned popup on top would block creation
    /// forever, the request is parked with a fresh retry budget, and the
    /// retry timer is armed unless a deferred request was already parked, in
    /// which case it is replaced.
    #[verifier::rlimit(50)]
    pub fn popup_request(&mut self, settings: PopupSettings) -> (out: StepOutput)
        requires
            old(self).wf(),
            old(self).next_object_id < u64::MAX,
        ensures
            final(self).wf(),
            popup_request_post(old(self)@, final(self)@, settings, out.requests@, out.events@),
    {
        if self.creation_unblocked(settings.parent) {
            self.pending_popup = None;
            self.create_popup_now(settings)
        } else {
            let n = self.popups.len();
            let kept = match self.rfind_popup_index(settings.parent) {
                Some(j) => {
                    proof {
                        assert(j < n);
                    }
                    j + 1
                }
                None => 0,
            };
            let mut out = self.destroy_popups_from(kept);
            let armed = match &self.pending_popup {
                Some(_) => false,
                None => true,
            };
            self.pending_popup = Some(PendingPopup { settings, attempts: 0 });
            if armed {
                out.requests.push(ProtocolRequest::ScheduleRetry);
            }
            proof {
                let chain = old(self)@.popups.subrange(
                    clear_from(old(self)@.popups, settings.parent),
                    old(self)@.popups.len() as int,
                );
                let rev = chain.reverse();
                let evmap = rev.map(|k2: int, r: PopupRecord| done_event_of(r));
                let reqmap = rev.map(|k2: int, r: PopupRecord| destroy_request_of(r));
                assert(out.events@ =~= evmap) by {
                    assert forall|k: int| 0 <= k < out.events@.len() implies #[trigger] out.events@[k]
                        == evmap[k] by {
                        assert(rev[k] == chain[chain.len() - 1 - k]);
                    }
                }
                assert forall|k: int| 0 <= k < reqmap.len() implies #[trigger] reqmap[k]
                    == destroy_request_of(chain[chain.len() - 1 - k]) by {
                    assert(rev[k] == chain[chain.len() - 1 - k]);
                }
                if armed {
                    assert(out.requests@ =~= reqmap + seq![ProtocolRequest::ScheduleRetry]);
                } else {
                    assert(out.requests@ =~= reqmap + Seq::<ProtocolRequest>::empty());
                }
            }
            out
        }
    }

    /// One firing of the popup-retry timer.
    ///
    /// Nothing is parked: nothing happens. While destruction is in flight or
    /// the parent is still not topmost, the retry budget is spent one step
    /// at a time, re-arming the timer, and once overspent the creation is
    /// dropped with a single failure notification. As soon as the stack is
    /// quiet and the parent is topmost, the creation runs.
    pub fn retry_tick(&mut self) -> (out: StepOutput)
        requires
            old(self).wf(),
            old(self).next_object_id < u64::MAX,
        ensures
            final(self).wf(),
            retry_tick_post(old(self)@, final(self)@, out.requests@, out.events@),
    {
        let pending = match &self.pending_popup {
            Some(p) => *p,
            None => {
                return StepOutput::new();
            }
        };
        if self.creation_unblocked(pending.settings.parent) {
            self.pending_popup = None;
            self.create_popup_now(pending.settings)
        } else {
            let mut out = StepOutput::new();
            if pending.attempts < MAX_POPUP_RETRIES {
                self.pending_popup = Some(
                    PendingPopup {
                        settings: pending.settings,
                        attempts: pending.attempts + 1,
                    },
                );
                out.requests.push(ProtocolRequest::ScheduleRetry);
            } else {
                self.pending_popup = None;
                out.events.push(
                    SctkEvent::Failed {
                        id: pending.settings.id,
                        reason: FailureReason::ParentMissing,
                    },
                );
            }
            out
        }
    }


    /// Repositions the popup with consumer id `id` to a new size.
    ///
    /// Resizing is idempotent: when the positioner already asks for
    /// `(width, height)`, nothing changes and nothing is sent. Otherwise the
    /// positioner is updated, the window geometry and positioner size are
    /// re-issued, and a repositioning with a fresh token is requested; the
    /// consumer sees one size notification.
    #[verifier::rlimit(50)]
    pub fn popup_set_size(&mut self, id: Id, width: u32, height: u32) -> (out: StepOutput)
        requires
            old(self).wf(),
        ensures
            final(self).wf(),
            popup_set_size_post(old(self)@, final(self)@, id, width, height, out.requests@, out.events@),
    {
        let mut out = StepOutput::new();
        let i = match self.find_popup_index(id) {
            Some(i) => i,
            None => {
                return out;
            }
        };
        let same = match self.popups[i].positioner.size {
            Some((w, h)) => w == width && h == height,
            None => false,
        };
        if same {
            return out;
        }
        let mut rec = self.popups.remove(i);
        rec.positioner.size = Some((width, height));
        self.popups.insert(i, rec);
        proof {
            assert(self.popups@ =~= old(self)@.popups.update(
                i as int,
                PopupRecord {
                    positioner: crate::commands::PositionerSettings {
                        size: Some((width, height)),
                        ..old(self)@.popups[i as int].positioner
                    },
                    ..old(self)@.popups[i as int]
                },
            ));
            assert(forall|k: int|
                0 < k < self.popups@.len() ==> (#[trigger] self.popups@[k]).parent == (
                PopupParent::Popup(self.popups@[k - 1].surface)));
        }
        let token = self.reposition_token_ctr;
        self.reposition_token_ctr = self.reposition_token_ctr.wrapping_add(1);
        let surface = rec.surface;
        let parent_surface = rec.parent.wl_surface();
        out.requests.push(ProtocolRequest::SetWindowGeometry { surface, width, height });
        out.requests.push(ProtocolRequest::SetPositionerSize { surface, width, height });
        out.requests.push(ProtocolRequest::RepositionPopup { surface, token });
        out.events.push(
            SctkEvent::PopupEvent {
                variant: PopupEventVariant::Size(width, height),
                toplevel_id: parent_surface,
                parent_id: parent_surface,
                id: surface,
            },
        );
        proof {
            assert(out.requests@ =~= seq![
                ProtocolRequest::SetWindowGeometry { surface, width, height },
                ProtocolRequest::SetPositionerSize { surface, width, height },
                ProtocolRequest::RepositionPopup { surface, token },
            ]);
            assert(out.events@ =~= seq![
                SctkEvent::PopupEvent {
                    variant: PopupEventVariant::Size(width, height),
                    toplevel_id: parent_surface,
                    parent_id: parent_surface,
                    id: surface,
                },
            ]);
        }
        out
    }

    /// Handles a popup configure from the compositor.
    ///
    /// The throttle is asked for a redraw of the surface; the configure is
    /// recorded, and the consumer is told, with a flag marking the first
    /// configure of the popup's life. A configure for an unknown surface
    /// only pokes the throttle.
    pub fn popup_configure(
        &mut self,
        surface: ObjectId,
        configure: crate::events::PopupConfigure,
    ) -> (out: StepOutput)
        requires
            old(self).wf(),
        ensures
            final(self).wf(),
            popup_configure_event_post(old(self)@, final(self)@, surface, configure, out.requests@, out.events@),
    {
        let mut out = StepOutput::new();
        self.frame_status.request_redraw(surface);
        proof {
            assert forall|o: ObjectId| o != surface implies seq_status_of(
                self@.frame_status,
                o,
            ) == seq_status_of(old(self)@.frame_status, o) by {
                assert(self.frame_status.status_of(o) == old(self).frame_status.status_of(o));
            }
        }
        let i = match self.find_popup_index_by_surface(surface) {
            Some(i) => i,
            None => {
                return out;
            }
        };
        let mut rec = self.popups.remove(i);
        let first = match rec.last_configure {
            Some(_) => false,
            None => true,
        };
        rec.last_configure = Some(configure);
        self.popups.insert(i, rec);
        proof {
            assert(self.popups@ =~= old(self)@.popups.update(
                i as int,
                PopupRecord {
                    last_configure: Some(configure),
                    ..old(self)@.popups[i as int]
                },
            ));
            assert(forall|k: int|
                0 < k < self.popups@.len() ==> (#[trigger] self.popups@[k]).parent == (
                PopupParent::Popup(self.popups@[k - 1].surface)));
        }
        out.events.push(
            SctkEvent::PopupEvent {
                variant: PopupEventVariant::Configure(configure, surface, first),
                toplevel_id: rec.toplevel,
                parent_id: rec.parent.wl_surface(),
                id: surface,
            },
        );
        out
    }

    /// Handles the compositor dismissing a popup: the popup and everything
    /// nested above it are destroyed, deepest child first, as if the
    /// consumer had asked.
    pub fn popup_done(&mut self, surface: ObjectId) -> (out: StepOutput)
        requires
            old(self).wf(),
        ensures
            final(self).wf(),
            popup_done_post(old(self)@, final(self)@, surface, out.requests@, out.events@),
    {
        match self.find_popup_index_by_surface(surface) {
            Some(i) => self.destroy_popups_from(i),
            None => StepOutput::new(),
        }
    }

    /// Destroys the popup at stack index `from` together with every popup
    /// nested above it.
    ///
    /// The stack above `from` is exactly the set of popups whose parent
    /// chain passes through the popup at `from`, so they are removed
    /// topmost (deepest) first: each one's registry mapping is forgotten,
    /// its id is held as destroyed, its throttle entry dropped, its protocol
    /// object destroyed, and its destroy notification emitted. The
    /// notifications come out strictly innermost-to-outermost, the popup at
    /// `from` last.
    pub fn destroy_popups_from(&mut self, from: usize) -> (out: StepOutput)
        requires
            old(self).wf(),
            from <= old(self).popups@.len(),
        ensures
            final(self).wf(),
            destroy_popups_from_post(old(self)@, final(self)@, from as int, out.requests@, out.events@),
    {
        let ghost pre = old(self)@;
        let ghost len = old(self)@.popups.len() as int;
        let ghost chain = old(self)@.popups.subrange(from as int, len);
        let mut out = StepOutput::new();
        while self.popups.len() > from
            invariant
                self.wf(),
                from <= self.popups@.len() <= len,
                len == pre.popups.len(),
                chain == pre.popups.subrange(from as int, len),
                self.popups@ == pre.popups.subrange(0, self.popups@.len() as int),
                chain_forget(pre.id_map, pre.destroyed, chain) == chain_forget(
                    self@.id_map,
                    self@.destroyed,
                    pre.popups.subrange(from as int, self.popups@.len() as int),
                ),
                forall|o: ObjectId|
                    !chain_has_surface(
                        pre.popups.subrange(self.popups@.len() as int, len),
                        o,
                    ) ==> seq_status_of(self@.frame_status, o) == seq_status_of(
                        pre.frame_status,
                        o,
                    ),
                out.requests@.len() == len - self.popups@.len(),
                forall|k: int|
                    0 <= k < out.requests@.len() ==> out.requests@[k] == destroy_request_of(
                        pre.popups[len - 1 - k],
                    ),
                out.events@.len() == len - self.popups@.len(),
                forall|k: int|
                    0 <= k < out.events@.len() ==> out.events@[k] == done_event_of(
                        pre.popups[len - 1 - k],
                    ),
                self@ == (StateModel {
                    popups: self@.popups,
                    id_map: self@.id_map,
                    destroyed: self@.destroyed,
                    frame_status: self@.frame_status,
                    ..pre
                }),
            decreases self.popups@.len(),
        {
            let ghost j = self.popups@.len() as int;
            let ghost mid = self@;
            let rec = match self.popups.pop() {
                Some(rec) => rec,
                None => {
                    proof {
                        assert(false);
                    }
                    return out;
                }
            };
            proof {
                assert(rec == pre.popups[j - 1]);
                assert(self.popups@ =~= pre.popups.subrange(0, j - 1));
            }
            match self.id_map.forget(rec.surface) {
                Some(destroyed_id) => {
                    self.insert_destroyed(destroyed_id);
                }
                None => {}
            }
            let ghost mid2 = self@;
            self.frame_status.forget(rec.surface);
            proof {
                assert forall|o: ObjectId| o != rec.surface implies seq_status_of(
                    self@.frame_status,
                    o,
                ) == seq_status_of(mid2.frame_status, o) by {
                    assert(self.frame_status.status_of(o) == seq_status_of(mid2.frame_status, o));
                }
                let processed = pre.popups.subrange(j - 1, len);
                let processed_before = pre.popups.subrange(j, len);
                assert(processed[0] == pre.popups[j - 1]);
                assert forall|o: ObjectId| !chain_has_surface(processed, o) implies seq_status_of(
                    self@.frame_status,
                    o,
                ) == seq_status_of(pre.frame_status, o) by {
                    assert(forall|k: int|
                        0 <= k < processed_before.len() ==> processed_before[k] == processed[k
                            + 1]);
                    assert(!chain_has_surface(processed_before, o)) by {
                        if chain_has_surface(processed_before, o) {
                            let k = choose|k: int|
                                0 <= k < processed_before.len() && (
                                #[trigger] processed_before[k]).surface == o;
                            assert(processed[k + 1].surface == o);
                        }
                    }
                    assert(o != rec.surface) by {
                        assert(processed[0].surface == rec.surface);
                    }
                }
                let sub = pre.popups.subrange(from as int, j);
                assert(sub.last() == pre.popups[j - 1]);
                assert(sub.drop_last() =~= pre.popups.subrange(from as int, j - 1));
                assert(chain_forget(mid.id_map, mid.destroyed, sub) == chain_forget(
                    self@.id_map,
                    self@.destroyed,
                    pre.popups.subrange(from as int, j - 1),
                ));
            }
            out.requests.push(ProtocolRequest::DestroySurface { surface: rec.surface });
            out.events.push(
                SctkEvent::PopupEvent {
                    variant: PopupEventVariant::Done,
                    toplevel_id: rec.toplevel,
                    parent_id: rec.parent.wl_surface(),
                    id: rec.surface,
                },
            );
        }
        proof {
            assert(pre.popups.subrange(from as int, self.popups@.len() as int) =~= Seq::<
                PopupRecord,
            >::empty());
            assert(chain_forget(self@.id_map, self@.destroyed, Seq::<PopupRecord>::empty()) == (
            self@.id_map,
            self@.destroyed,
            ));
            assert forall|k: int| 0 <= k < chain.len() implies out.requests@[k]
                == destroy_request_of(chain[chain.len() - 1 - k]) by {
                assert(chain[chain.len() - 1 - k] == pre.popups[len - 1 - k]);
            }
            assert forall|k: int| 0 <= k < chain.len() implies out.events@[k] == done_event_of(
                chain[chain.len() - 1 - k],
            ) by {
                assert(chain[chain.len() - 1 - k] == pre.popups[len - 1 - k]);
            }
        }
        out
    }

    /// Destroys the popup with consumer id `id`, taking down every popup
    /// nested above it first.
    ///
    /// For a chain of nested popups this emits exactly one destroy
    /// notification per destroyed popup, in strictly innermost-to-outermost
    /// order, the named popup last; destroying the root of an N-deep chain
    /// emits exactly N. A popup that does not exist destroys nothing.
    pub fn destroy_popup(&mut self, id: Id) -> (out: StepOutput)
        requires
            old(self).wf(),
        ensures
            final(self).wf(),
            popup_destroy_post(old(self)@, final(self)@, id, out.requests@, out.events@),
    {
        match self.find_popup_index(id) {
            Some(i) => self.destroy_popups_from(i),
            None => StepOutput::new(),
        }
    }
}

} // verus!
