//! Layer-surface operations.
//!
//! Creation negotiates the requested size against the anchors, registers the
//! new protocol object, and issues the whole configuration as one ordered
//! run of protocol calls ending in a commit. Every later mutation finds the
//! record by consumer id, updates it, issues the matching protocol call, and
//! marks the surface for a coalesced recommit on the next dispatch pass.

use vstd::prelude::*;
use crate::commands::LayerSurfaceSettings;
use crate::events::{
    FailureReason, LayerSurfaceConfigure, LayerSurfaceEventVariant, ProtocolRequest, SctkEvent,
    StepOutput,
};
use crate::geometry::{anchor_contains, Size, ANCHOR_BOTTOM, ANCHOR_LEFT, ANCHOR_RIGHT, ANCHOR_TOP};
use crate::ids::{Id, ObjectId};
use crate::frame::{seq_status_of, step_frame_callback, step_request_redraw};
use crate::state::{
    find_layer, find_layer_by_surface, insert_id, mark_commit, Common, LayerSurfaceRecord,
    SctkState, StateModel,
};

verus! {

/// The requested size after anchor normalization: an axis that both opposite
/// anchors stretch is left to the compositor; any other axis gets a concrete
/// size of at least 1.
pub open spec fn normalized_layer_size(
    anchor: u32,
    size: Option<(Option<u32>, Option<u32>)>,
) -> (Option<u32>, Option<u32>) {
    let raw = if size is Some {
        size->0
    } else {
        (None, None)
    };
    let h = if anchor_contains(anchor, ANCHOR_BOTTOM | ANCHOR_TOP) {
        None
    } else if raw.1 is Some && raw.1->0 >= 1 {
        raw.1
    } else {
        Some(1u32)
    };
    let w = if anchor_contains(anchor, ANCHOR_LEFT | ANCHOR_RIGHT) {
        None
    } else if raw.0 is Some && raw.0->0 >= 1 {
        raw.0
    } else {
        Some(1u32)
    };
    (w, h)
}

/// The record a successful creation pushes.
pub open spec fn created_layer_record(
    settings: LayerSurfaceSettings,
    surface: ObjectId,
    viewporter: bool,
    fractional_scaling: bool,
) -> LayerSurfaceRecord {
    let norm = normalized_layer_size(settings.anchor, settings.size);
    LayerSurfaceRecord {
        id: settings.id,
        surface,
        current_size: None,
        layer: settings.layer,
        anchor: settings.anchor,
        keyboard_interactivity: settings.keyboard_interactivity,
        margin: settings.margin,
        exclusive_zone: settings.exclusive_zone,
        last_configure: None,
        has_fractional_scale: fractional_scaling,
        common: Common {
            fractional_scale: None,
            size: Size {
                width: if norm.0 is Some {
                    norm.0->0
                } else {
                    1u32
                },
                height: if norm.1 is Some {
                    norm.1->0
                } else {
                    1u32
                },
            },
            requested_size: norm,
            has_viewport: viewporter,
        },
    }
}

/// The ordered protocol calls a successful creation performs.
pub open spec fn layer_create_requests(
    settings: LayerSurfaceSettings,
    surface: ObjectId,
    viewporter: bool,
    fractional_scaling: bool,
) -> Seq<ProtocolRequest> {
    let norm = normalized_layer_size(settings.anchor, settings.size);
    seq![
        ProtocolRequest::CreateLayerSurface {
            surface,
            layer: settings.layer,
            namespace: settings.namespace,
            output: settings.output,
        },
        ProtocolRequest::SetAnchor { surface, anchor: settings.anchor },
        ProtocolRequest::SetKeyboardInteractivity {
            surface,
            keyboard_interactivity: settings.keyboard_interactivity,
        },
        ProtocolRequest::SetMargin { surface, margin: settings.margin },
        ProtocolRequest::SetLayerSize {
            surface,
            width: if norm.0 is Some {
                norm.0->0
            } else {
                0u32
            },
            height: if norm.1 is Some {
                norm.1->0
            } else {
                0u32
            },
        },
        ProtocolRequest::SetExclusiveZone { surface, zone: settings.exclusive_zone },
    ] + (if !settings.pointer_interactivity {
        seq![ProtocolRequest::SetInputRegionEmpty { surface }]
    } else {
        Seq::empty()
    }) + seq![ProtocolRequest::Commit { surface }] + (if viewporter {
        seq![ProtocolRequest::GetViewport { surface }]
    } else {
        Seq::empty()
    }) + (if fractional_scaling {
        seq![ProtocolRequest::GetFractionalScale { surface }]
    } else {
        Seq::empty()
    })
}

/// Whether two optional sizes are the same.
fn opt_u32_eq(a: &Option<u32>, b: &Option<u32>) -> (r: bool)
    ensures
        r == (*a == *b),
{
    match (a, b) {
        (Some(x), Some(y)) => *x == *y,
        (None, None) => true,
        _ => false,
    }
}


/// What handling a layer-surface creation command does: with the extension
/// present the surface is created, its throttle is poked as if a frame
/// arrived, and a created notification is emitted; without it nothing
/// changes but a failure notification naming the surface's id.
pub open spec fn create_layer_post(
    pre: StateModel,
    post: StateModel,
    settings: LayerSurfaceSettings,
    reqs: Seq<ProtocolRequest>,
    evs: Seq<SctkEvent>,
) -> bool {
    if pre.caps.layer_shell {
        let surface = ObjectId(pre.next_object_id);
        &&& post == (StateModel {
            layer_surfaces: pre.layer_surfaces.push(
                created_layer_record(
                    settings,
                    surface,
                    pre.caps.viewporter,
                    pre.caps.fractional_scaling,
                ),
            ),
            id_map: pre.id_map.insert(surface, settings.id),
            next_object_id: (pre.next_object_id + 1) as u64,
            frame_status: post.frame_status,
            ..pre
        })
        &&& seq_status_of(post.frame_status, surface) == step_frame_callback(
            seq_status_of(pre.frame_status, surface),
        )
        &&& forall|o: ObjectId|
            o != surface ==> seq_status_of(post.frame_status, o) == seq_status_of(
                pre.frame_status,
                o,
            )
        &&& reqs == layer_create_requests(
            settings,
            surface,
            pre.caps.viewporter,
            pre.caps.fractional_scaling,
        )
        &&& evs == seq![
            SctkEvent::LayerSurfaceEvent {
                variant: LayerSurfaceEventVariant::Created(surface, settings.id),
                id: surface,
            },
        ]
    } else {
        post == pre && reqs == Seq::<ProtocolRequest>::empty() && evs == seq![
            SctkEvent::Failed {
                id: settings.id,
                reason: FailureReason::ExtensionUnavailable,
            },
        ]
    }
}

/// What a resize command does: nothing for an unknown id or an
/// unchanged requested size; otherwise the request is recorded, the sizing
/// call goes out, the throttle is poked, and a configure is re-emitted once
/// one has been seen.
pub open spec fn layer_set_size_post(
    pre: StateModel,
    post: StateModel,
    id: Id, width: Option<u32>, height: Option<u32>,
    reqs: Seq<ProtocolRequest>,
    evs: Seq<SctkEvent>,
) -> bool {
    match find_layer(pre.layer_surfaces, id) {
        Some(i) => {
            let rec = pre.layer_surfaces[i as int];
            if rec.common.requested_size == (width, height) {
                post == pre && reqs == Seq::<
                    ProtocolRequest,
                >::empty() && evs == Seq::<SctkEvent>::empty()
            } else {
                &&& post == (StateModel {
                    layer_surfaces: pre.layer_surfaces.update(
                        i as int,
                        LayerSurfaceRecord {
                            common: Common {
                                requested_size: (width, height),
                                ..rec.common
                            },
                            ..rec
                        },
                    ),
                    frame_status: post.frame_status,
                    ..pre
                })
                &&& seq_status_of(post.frame_status, rec.surface)
                    == step_frame_callback(
                    seq_status_of(pre.frame_status, rec.surface),
                )
                &&& forall|o: ObjectId|
                    o != rec.surface ==> seq_status_of(post.frame_status, o)
                        == seq_status_of(pre.frame_status, o)
                &&& reqs == seq![
                    ProtocolRequest::SetLayerSize {
                        surface: rec.surface,
                        width: if width is Some {
                            width->0
                        } else {
                            0u32
                        },
                        height: if height is Some {
                            height->0
                        } else {
                            0u32
                        },
                    },
                ]
                &&& evs == match rec.last_configure {
                    Some(c) => seq![
                        SctkEvent::LayerSurfaceEvent {
                            variant: LayerSurfaceEventVariant::Configure(
                                (LayerSurfaceConfigure {
                                    new_size: (
                                        if width is Some {
                                            width->0
                                        } else {
                                            c.new_size.0
                                        },
                                        if height is Some {
                                            height->0
                                        } else {
                                            c.new_size.1
                                        },
                                    ),
                                }),
                                rec.surface,
                                false,
                            ),
                            id: rec.surface,
                        },
                    ],
                    None => Seq::<SctkEvent>::empty(),
                }
            }
        },
        None => post == pre && reqs == Seq::<
            ProtocolRequest,
        >::empty() && evs == Seq::<SctkEvent>::empty(),
    }
}

/// What destroying a layer surface does: the record, registry mapping and
/// throttle entry go away, the id is held until the consumer drops its
/// handle, and the consumer is told the surface is done.
pub open spec fn layer_destroy_post(
    pre: StateModel,
    post: StateModel,
    id: Id,
    reqs: Seq<ProtocolRequest>,
    evs: Seq<SctkEvent>,
) -> bool {
    match find_layer(pre.layer_surfaces, id) {
        Some(i) => {
            let rec = pre.layer_surfaces[i as int];
            &&& post == (StateModel {
                layer_surfaces: pre.layer_surfaces.remove(i as int),
                id_map: pre.id_map.remove(rec.surface),
                destroyed: if pre.id_map.dom().contains(rec.surface) {
                    insert_id(pre.destroyed, pre.id_map[rec.surface])
                } else {
                    pre.destroyed
                },
                frame_status: post.frame_status,
                ..pre
            })
            &&& seq_status_of(post.frame_status, rec.surface) == (
            crate::frame::FrameStatus::Received)
            &&& forall|o: ObjectId|
                o != rec.surface ==> seq_status_of(post.frame_status, o)
                    == seq_status_of(pre.frame_status, o)
            &&& reqs == seq![
                ProtocolRequest::DestroySurface { surface: rec.surface },
            ]
            &&& evs == seq![
                SctkEvent::LayerSurfaceEvent {
                    variant: LayerSurfaceEventVariant::Done,
                    id: rec.surface,
                },
            ]
        },
        None => post == pre && reqs == Seq::<
            ProtocolRequest,
        >::empty() && evs == Seq::<SctkEvent>::empty(),
    }
}

/// What an anchor change does: the record is updated, the protocol call
/// goes out, and the surface is marked for a coalesced recommit.
pub open spec fn layer_set_anchor_post(
    pre: StateModel,
    post: StateModel,
    id: Id, anchor: u32,
    reqs: Seq<ProtocolRequest>,
    evs: Seq<SctkEvent>,
) -> bool {
    &&& evs == Seq::<SctkEvent>::empty()
    &&& match find_layer(pre.layer_surfaces, id) {
        Some(i) => {
            let rec = pre.layer_surfaces[i as int];
            &&& post == (StateModel {
                layer_surfaces: pre.layer_surfaces.update(
                    i as int,
                    LayerSurfaceRecord { anchor, ..rec },
                ),
                to_commit: mark_commit(pre.to_commit, id, rec.surface),
                ..pre
            })
            &&& reqs == seq![
                ProtocolRequest::SetAnchor { surface: rec.surface, anchor },
            ]
        },
        None => post == pre && reqs == Seq::<
            ProtocolRequest,
        >::empty(),
    }
}

/// What an exclusive-zone change does: the record is updated, the protocol
/// call goes out, and the surface is marked for a coalesced recommit.
pub open spec fn layer_set_exclusive_zone_post(
    pre: StateModel,
    post: StateModel,
    id: Id, exclusive_zone: i32,
    reqs: Seq<ProtocolRequest>,
    evs: Seq<SctkEvent>,
) -> bool {
    &&& evs == Seq::<SctkEvent>::empty()
    &&& match find_layer(pre.layer_surfaces, id) {
        Some(i) => {
            let rec = pre.layer_surfaces[i as int];
            &&& post == (StateModel {
                layer_surfaces: pre.layer_surfaces.update(
                    i as int,
                    LayerSurfaceRecord { exclusive_zone, ..rec },
                ),
                to_commit: mark_commit(pre.to_commit, id, rec.surface),
                ..pre
            })
            &&& reqs == seq![
                ProtocolRequest::SetExclusiveZone {
                    surface: rec.surface,
                    zone: exclusive_zone,
                },
            ]
        },
        None => post == pre && reqs == Seq::<
            ProtocolRequest,
        >::empty(),
    }
}

/// What a margin change does: the record is updated, the protocol call
/// goes out, and the surface is marked for a coalesced recommit.
pub open spec fn layer_set_margin_post(
    pre: StateModel,
    post: StateModel,
    id: Id, margin: crate::geometry::Margin,
    reqs: Seq<ProtocolRequest>,
    evs: Seq<SctkEvent>,
) -> bool {
    &&& evs == Seq::<SctkEvent>::empty()
    &&& match find_layer(pre.layer_surfaces, id) {
        Some(i) => {
            let rec = pre.layer_surfaces[i as int];
            &&& post == (StateModel {
                layer_surfaces: pre.layer_surfaces.update(
                    i as int,
                    LayerSurfaceRecord { margin, ..rec },
                ),
                to_commit: mark_commit(pre.to_commit, id, rec.surface),
                ..pre
            })
            &&& reqs == seq![
                ProtocolRequest::SetMargin { surface: rec.surface, margin },
            ]
        },
        None => post == pre && reqs == Seq::<
            ProtocolRequest,
        >::empty(),
    }
}

/// What a keyboard-interactivity change does: the record is updated, the
/// protocol call goes out, and the surface is marked for a coalesced
/// recommit.
pub open spec fn layer_set_keyboard_interactivity_post(
    pre: StateModel,
    post: StateModel,
    id: Id, keyboard_interactivity: crate::geometry::KeyboardInteractivity,
    reqs: Seq<ProtocolRequest>,
    evs: Seq<SctkEvent>,
) -> bool {
    &&& evs == Seq::<SctkEvent>::empty()
    &&& match find_layer(pre.layer_surfaces, id) {
        Some(i) => {
            let rec = pre.layer_surfaces[i as int];
            &&& post == (StateModel {
                layer_surfaces: pre.layer_surfaces.update(
                    i as int,
                    LayerSurfaceRecord { keyboard_interactivity, ..rec },
                ),
                to_commit: mark_commit(pre.to_commit, id, rec.surface),
                ..pre
            })
            &&& reqs == seq![
                ProtocolRequest::SetKeyboardInteractivity {
                    surface: rec.surface,
                    keyboard_interactivity,
                },
            ]
        },
        None => post == pre && reqs == Seq::<
            ProtocolRequest,
        >::empty(),
    }
}

/// What a layer-band change does: the record is updated, the protocol call
/// goes out, and the surface is marked for a coalesced recommit.
pub open spec fn layer_set_layer_post(
    pre: StateModel,
    post: StateModel,
    id: Id, layer: crate::geometry::Layer,
    reqs: Seq<ProtocolRequest>,
    evs: Seq<SctkEvent>,
) -> bool {
    &&& evs == Seq::<SctkEvent>::empty()
    &&& match find_layer(pre.layer_surfaces, id) {
        Some(i) => {
            let rec = pre.layer_surfaces[i as int];
            &&& post == (StateModel {
                layer_surfaces: pre.layer_surfaces.update(
                    i as int,
                    LayerSurfaceRecord { layer, ..rec },
                ),
                to_commit: mark_commit(pre.to_commit, id, rec.surface),
                ..pre
            })
            &&& reqs == seq![
                ProtocolRequest::SetLayer { surface: rec.surface, layer },
            ]
        },
        None => post == pre && reqs == Seq::<
            ProtocolRequest,
        >::empty(),
    }
}

/// What a compositor configure does: the throttle is asked for a redraw,
/// the proposal is negotiated against the requested size, the viewport
/// follows when one is bound, and the consumer is told, with the first
/// configure marked.
pub open spec fn layer_configure_post(
    pre: StateModel,
    post: StateModel,
    surface: ObjectId, width: u32, height: u32,
    reqs: Seq<ProtocolRequest>,
    evs: Seq<SctkEvent>,
) -> bool {
    &&& seq_status_of(post.frame_status, surface) == step_request_redraw(
        seq_status_of(pre.frame_status, surface),
    )
    &&& forall|o: ObjectId|
        o != surface ==> seq_status_of(post.frame_status, o) == seq_status_of(
            pre.frame_status,
            o,
        )
    &&& match find_layer_by_surface(pre.layer_surfaces, surface) {
        Some(i) => {
            let rec = pre.layer_surfaces[i as int];
            let new_w = if rec.common.requested_size.0 is Some {
                rec.common.requested_size.0->0
            } else if width >= 1 {
                width
            } else {
                1u32
            };
            let new_h = if rec.common.requested_size.1 is Some {
                rec.common.requested_size.1->0
            } else if height >= 1 {
                height
            } else {
                1u32
            };
            &&& post == (StateModel {
                layer_surfaces: pre.layer_surfaces.update(
                    i as int,
                    LayerSurfaceRecord {
                        current_size: Some((Size { width: new_w, height: new_h })),
                        last_configure: Some(
                            (LayerSurfaceConfigure { new_size: (new_w, new_h) }),
                        ),
                        common: Common {
                            size: Size { width: new_w, height: new_h },
                            ..rec.common
                        },
                        ..rec
                    },
                ),
                frame_status: post.frame_status,
                ..pre
            })
            &&& reqs == (if rec.common.has_viewport {
                seq![
                    ProtocolRequest::SetViewportDestination {
                        surface,
                        width: new_w,
                        height: new_h,
                    },
                ]
            } else {
                Seq::<ProtocolRequest>::empty()
            })
            &&& evs == seq![
                SctkEvent::LayerSurfaceEvent {
                    variant: LayerSurfaceEventVariant::Configure(
                        (LayerSurfaceConfigure { new_size: (new_w, new_h) }),
                        surface,
                        rec.last_configure is None,
                    ),
                    id: surface,
                },
            ]
        },
        None => post == (StateModel {
            frame_status: post.frame_status,
            ..pre
        }) && reqs == Seq::<ProtocolRequest>::empty() && evs == Seq::<
            SctkEvent,
        >::empty(),
    }
}

/// What the compositor closing a layer surface does: exactly a
/// consumer-requested destruction.
pub open spec fn layer_closed_post(
    pre: StateModel,
    post: StateModel,
    surface: ObjectId,
    reqs: Seq<ProtocolRequest>,
    evs: Seq<SctkEvent>,
) -> bool {
    match find_layer_by_surface(pre.layer_surfaces, surface) {
        Some(i) => {
            let rec = pre.layer_surfaces[i as int];
            &&& post == (StateModel {
                layer_surfaces: pre.layer_surfaces.remove(i as int),
                id_map: pre.id_map.remove(rec.surface),
                destroyed: if pre.id_map.dom().contains(rec.surface) {
                    insert_id(pre.destroyed, pre.id_map[rec.surface])
                } else {
                    pre.destroyed
                },
                frame_status: post.frame_status,
                ..pre
            })
            &&& seq_status_of(post.frame_status, rec.surface) == (
            crate::frame::FrameStatus::Received)
            &&& forall|o: ObjectId|
                o != rec.surface ==> seq_status_of(post.frame_status, o)
                    == seq_status_of(pre.frame_status, o)
            &&& reqs == seq![
                ProtocolRequest::DestroySurface { surface: rec.surface },
            ]
            &&& evs == seq![
                SctkEvent::LayerSurfaceEvent {
                    variant: LayerSurfaceEventVariant::Done,
                    id: rec.surface,
                },
            ]
        },
        None => post == pre && reqs == Seq::<
            ProtocolRequest,
        >::empty() && evs == Seq::<SctkEvent>::empty(),
    }
}

impl SctkState {
    /// Creates a layer surface.
    ///
    /// Fails with `ExtensionUnavailable`, changing nothing, when the
    /// compositor does not offer the layer-shell extension. Otherwise a
    /// fresh protocol object is allocated and registered under the
    /// consumer's id, the record is pushed, and the configuration calls are
    /// issued in order, ending in a commit and the optional viewport and
    /// fractional-scale bindings.
    pub fn get_layer_surface(&mut self, settings: LayerSurfaceSettings) -> (r: (
        Result<ObjectId, FailureReason>,
        StepOutput,
    ))
        requires
            old(self).wf(),
            old(self).next_object_id < u64::MAX,
        ensures
            final(self).wf(),
            r.1.events@ == Seq::<SctkEvent>::empty(),
            match r.0 {
                Ok(surface) => {
                    &&& surface == (ObjectId(old(self).next_object_id))
                    &&& final(self)@ == (StateModel {
                        layer_surfaces: old(self)@.layer_surfaces.push(
                            created_layer_record(
                                settings,
                                surface,
                                old(self).caps.viewporter,
                                old(self).caps.fractional_scaling,
                            ),
                        ),
                        id_map: old(self)@.id_map.insert(surface, settings.id),
                        next_object_id: (old(self).next_object_id + 1) as u64,
                        ..old(self)@
                    })
                    &&& r.1.requests@ == layer_create_requests(
                        settings,
                        surface,
                        old(self).caps.viewporter,
                        old(self).caps.fractional_scaling,
                    )
                },
                Err(reason) => {
                    &&& reason == (FailureReason::ExtensionUnavailable)
                    &&& !old(self).caps.layer_shell
                    &&& final(self)@ == old(self)@
                    &&& r.1.requests@ == Seq::<ProtocolRequest>::empty()
                },
            },
            r.0 is Err <==> !old(self).caps.layer_shell,
    {
        let ghost settings0 = settings;
        let mut out = StepOutput::new();
        if !self.caps.layer_shell {
            return (Err(FailureReason::ExtensionUnavailable), out);
        }
        let surface = ObjectId(self.next_object_id);
        self.next_object_id = self.next_object_id + 1;
        proof {
            crate::registry::lemma_entries_map_dom(self.id_map.entries@);
        }
        let reg = self.id_map.register(surface, settings.id);
        proof {
            assert(reg is Ok);
        }

        let raw = match settings.size {
            Some(s) => s,
            None => (None, None),
        };
        let height = if anchor_is(settings.anchor, ANCHOR_BOTTOM | ANCHOR_TOP) {
            None
        } else {
            match raw.1 {
                Some(h) => if h >= 1 {
                    Some(h)
                } else {
                    Some(1)
                },
                None => Some(1),
            }
        };
        let width = if anchor_is(settings.anchor, ANCHOR_LEFT | ANCHOR_RIGHT) {
            None
        } else {
            match raw.0 {
                Some(w) => if w >= 1 {
                    Some(w)
                } else {
                    Some(1)
                },
                None => Some(1),
            }
        };
        proof {
            assert((width, height) == normalized_layer_size(settings0.anchor, settings0.size));
        }

        let record = LayerSurfaceRecord {
            id: settings.id,
            surface,
            current_size: None,
            layer: settings.layer,
            anchor: settings.anchor,
            keyboard_interactivity: settings.keyboard_interactivity,
            margin: settings.margin,
            exclusive_zone: settings.exclusive_zone,
            last_configure: None,
            has_fractional_scale: self.caps.fractional_scaling,
            common: Common {
                fractional_scale: None,
                size: Size {
                    width: match width {
                        Some(w) => w,
                        None => 1,
                    },
                    height: match height {
                        Some(h) => h,
                        None => 1,
                    },
                },
                requested_size: (width, height),
                has_viewport: self.caps.viewporter,
            },
        };

        out.requests.push(
            ProtocolRequest::CreateLayerSurface {
                surface,
                layer: settings.layer,
                namespace: settings.namespace,
                output: settings.output,
            },
        );
        out.requests.push(ProtocolRequest::SetAnchor { surface, anchor: settings.anchor });
        out.requests.push(
            ProtocolRequest::SetKeyboardInteractivity {
                surface,
                keyboard_interactivity: settings.keyboard_interactivity,
            },
        );
        out.requests.push(ProtocolRequest::SetMargin { surface, margin: settings.margin });
        out.requests.push(
            ProtocolRequest::SetLayerSize {
                surface,
                width: match width {
                    Some(w) => w,
                    None => 0,
                },
                height: match height {
                    Some(h) => h,
                    None => 0,
                },
            },
        );
        out.requests.push(
            ProtocolRequest::SetExclusiveZone { surface, zone: settings.exclusive_zone },
        );
        if !settings.pointer_interactivity {
            out.requests.push(ProtocolRequest::SetInputRegionEmpty { surface });
        }
        out.requests.push(ProtocolRequest::Commit { surface });
        if self.caps.viewporter {
            out.requests.push(ProtocolRequest::GetViewport { surface });
        }
        if self.caps.fractional_scaling {
            out.requests.push(ProtocolRequest::GetFractionalScale { surface });
        }
        self.layer_surfaces.push(record);
        proof {
            assert(out.requests@ =~= layer_create_requests(
                settings0,
                surface,
                old(self).caps.viewporter,
                old(self).caps.fractional_scaling,
            ));
        }
        (Ok(surface), out)
    }


    /// Handles a layer-surface creation command: the surface is created,
    /// its throttle is poked as if a frame arrived, and the consumer is
    /// told, either of the new surface or of the failure.
    pub fn create_layer_now(&mut self, settings: LayerSurfaceSettings) -> (out: StepOutput)
        requires
            old(self).wf(),
            old(self).next_object_id < u64::MAX,
        ensures
            final(self).wf(),
            create_layer_post(old(self)@, final(self)@, settings, out.requests@, out.events@),
    {
        let ghost id0 = settings.id;
        let id = settings.id;
        let (res, mut out) = self.get_layer_surface(settings);
        match res {
            Ok(surface) => {
                let ghost mid = self@;
                self.frame_status.frame_callback(surface);
                proof {
                    assert forall|o: ObjectId| o != surface implies seq_status_of(
                        self@.frame_status,
                        o,
                    ) == seq_status_of(mid.frame_status, o) by {
                        assert(self.frame_status.status_of(o) == seq_status_of(
                            mid.frame_status,
                            o,
                        ));
                    }
                    assert(seq_status_of(self@.frame_status, surface) == step_frame_callback(
                        seq_status_of(mid.frame_status, surface),
                    )) by {
                        assert(self.frame_status.status_of(surface) == step_frame_callback(
                            seq_status_of(mid.frame_status, surface),
                        ));
                    }
                }
                out.events.push(
                    SctkEvent::LayerSurfaceEvent {
                        variant: LayerSurfaceEventVariant::Created(surface, id),
                        id: surface,
                    },
                );
                out
            }
            Err(reason) => {
                out.events.push(SctkEvent::Failed { id, reason });
                out
            }
        }
    }

    /// Handles a layer-surface configure from the compositor.
    ///
    /// The throttle is asked for a redraw; each axis of the compositor's
    /// proposal is overridden by the consumer's requested size where one is
    /// set, and floored at 1 where the compositor left it free; the
    /// negotiated size is recorded, the viewport updated when one is bound,
    /// and the consumer told, with a flag marking the first configure.
    pub fn layer_configure(&mut self, surface: ObjectId, width: u32, height: u32) -> (out:
        StepOutput)
        requires
            old(self).wf(),
        ensures
            final(self).wf(),
            layer_configure_post(old(self)@, final(self)@, surface, width, height, out.requests@, out.events@),
    {
        let mut out = StepOutput::new();
        self.frame_status.request_redraw(surface);
        proof {
            assert forall|o: ObjectId| o != surface implies seq_status_of(
                self@.frame_status,
                o,
            ) == seq_status_of(old(self)@.frame_status, o) by {
                assert(self.frame_status.status_of(o) == old(self).frame_status.status_of(o));
            }
        }
        let i = match self.find_layer_index_by_surface(surface) {
            Some(i) => i,
            None => {
                return out;
            }
        };
        let mut rec = self.layer_surfaces.remove(i);
        let new_w = match rec.common.requested_size.0 {
            Some(w) => w,
            None => if width >= 1 {
                width
            } else {
                1
            },
        };
        let new_h = match rec.common.requested_size.1 {
            Some(h) => h,
            None => if height >= 1 {
                height
            } else {
                1
            },
        };
        let first = match rec.last_configure {
            Some(_) => false,
            None => true,
        };
        rec.current_size = Some(Size { width: new_w, height: new_h });
        rec.last_configure = Some(LayerSurfaceConfigure { new_size: (new_w, new_h) });
        rec.common.size = Size { width: new_w, height: new_h };
        let has_viewport = rec.common.has_viewport;
        self.layer_surfaces.insert(i, rec);
        proof {
            assert(self.layer_surfaces@ =~= old(self)@.layer_surfaces.update(
                i as int,
                LayerSurfaceRecord {
                    current_size: Some((Size { width: new_w, height: new_h })),
                    last_configure: Some((LayerSurfaceConfigure { new_size: (new_w, new_h) })),
                    common: Common {
                        size: Size { width: new_w, height: new_h },
                        ..old(self)@.layer_surfaces[i as int].common
                    },
                    ..old(self)@.layer_surfaces[i as int]
                },
            ));
        }
        if has_viewport {
            out.requests.push(
                ProtocolRequest::SetViewportDestination { surface, width: new_w, height: new_h },
            );
        }
        out.events.push(
            SctkEvent::LayerSurfaceEvent {
                variant: LayerSurfaceEventVariant::Configure(
                    LayerSurfaceConfigure { new_size: (new_w, new_h) },
                    surface,
                    first,
                ),
                id: surface,
            },
        );
        out
    }

    /// Handles the compositor closing a layer surface: the record goes
    /// away exactly as on a consumer-requested destruction, and the
    /// consumer is told the surface is done.
    pub fn layer_closed(&mut self, surface: ObjectId) -> (out: StepOutput)
        requires
            old(self).wf(),
        ensures
            final(self).wf(),
            layer_closed_post(old(self)@, final(self)@, surface, out.requests@, out.events@),
    {
        let mut out = StepOutput::new();
        let i = match self.find_layer_index_by_surface(surface) {
            Some(i) => i,
            None => {
                return out;
            }
        };
        let rec = self.layer_surfaces.remove(i);
        match self.id_map.forget(rec.surface) {
            Some(destroyed_id) => {
                self.insert_destroyed(destroyed_id);
            }
            None => {}
        }
        let ghost mid = *self;
        self.frame_status.forget(rec.surface);
        proof {
            assert forall|o: ObjectId| o != rec.surface implies seq_status_of(
                self@.frame_status,
                o,
            ) == seq_status_of(old(self)@.frame_status, o) by {
                assert(self.frame_status.status_of(o) == mid.frame_status.status_of(o));
            }
            assert(seq_status_of(self@.frame_status, rec.surface) == (
            crate::frame::FrameStatus::Received)) by {
                assert(self.frame_status.status_of(rec.surface) == (
                crate::frame::FrameStatus::Received));
            }
        }
        out.requests.push(ProtocolRequest::DestroySurface { surface: rec.surface });
        out.events.push(
            SctkEvent::LayerSurfaceEvent { variant: LayerSurfaceEventVariant::Done, id: rec.surface },
        );
        out
    }

    /// Requests a new size for the layer surface with consumer id `id`.
    ///
    /// Resizing is idempotent: when the requested size already is
    /// `(width, height)`, nothing changes and nothing is sent, so a repeated
    /// resize costs at most one recommit. Otherwise the request is recorded,
    /// the sizing call is issued, the frame throttle is poked as if a frame
    /// arrived, and, once a configure has been seen, a configure notification
    /// with the new size is re-emitted.
    pub fn layer_surface_set_size(&mut self, id: Id, width: Option<u32>, height: Option<u32>) -> (
        out: StepOutput)
        requires
            old(self).wf(),
        ensures
            final(self).wf(),
            layer_set_size_post(old(self)@, final(self)@, id, width, height, out.requests@, out.events@),
    {
        let mut out = StepOutput::new();
        let i = match self.find_layer_index(id) {
            Some(i) => i,
            None => {
                return out;
            }
        };
        let same = opt_u32_eq(&self.layer_surfaces[i].common.requested_size.0, &width)
            && opt_u32_eq(&self.layer_surfaces[i].common.requested_size.1, &height);
        if same {
            return out;
        }
        let mut rec = self.layer_surfaces.remove(i);
        rec.common.requested_size = (width, height);
        self.layer_surfaces.insert(i, rec);
        proof {
            assert(self.layer_surfaces@ =~= old(self)@.layer_surfaces.update(
                i as int,
                LayerSurfaceRecord {
                    common: Common {
                        requested_size: (width, height),
                        ..old(self)@.layer_surfaces[i as int].common
                    },
                    ..old(self)@.layer_surfaces[i as int]
                },
            ));
        }
        let surface = rec.surface;
        out.requests.push(
            ProtocolRequest::SetLayerSize {
                surface,
                width: match width {
                    Some(w) => w,
                    None => 0,
                },
                height: match height {
                    Some(h) => h,
                    None => 0,
                },
            },
        );
        self.frame_status.frame_callback(surface);
        proof {
            assert forall|o: ObjectId| o != surface implies seq_status_of(
                self.frame_status.entries@,
                o,
            ) == seq_status_of(old(self).frame_status.entries@, o) by {
                assert(self.frame_status.status_of(o) == old(self).frame_status.status_of(o));
            }
        }
        match rec.last_configure {
            Some(c) => {
                out.events.push(
                    SctkEvent::LayerSurfaceEvent {
                        variant: LayerSurfaceEventVariant::Configure(
                            LayerSurfaceConfigure {
                                new_size: (
                                    match width {
                                        Some(w) => w,
                                        None => c.new_size.0,
                                    },
                                    match height {
                                        Some(h) => h,
                                        None => c.new_size.1,
                                    },
                                ),
                            },
                            surface,
                            false,
                        ),
                        id: surface,
                    },
                );
            }
            None => {}
        }
        out
    }

    /// Destroys the layer surface with consumer id `id`.
    ///
    /// The record is dropped, the registry mapping is forgotten before any
    /// further dispatch can see the reused identity, the throttle entry goes
    /// away, the id is held as destroyed until the consumer drops its
    /// handle, and a `Done` notification is emitted.
    pub fn destroy_layer_surface(&mut self, id: Id) -> (out: StepOutput)
        requires
            old(self).wf(),
        ensures
            final(self).wf(),
            layer_destroy_post(old(self)@, final(self)@, id, out.requests@, out.events@),
    {
        let mut out = StepOutput::new();
        let i = match self.find_layer_index(id) {
            Some(i) => i,
            None => {
                return out;
            }
        };
        let rec = self.layer_surfaces.remove(i);
        match self.id_map.forget(rec.surface) {
            Some(destroyed_id) => {
                self.insert_destroyed(destroyed_id);
            }
            None => {}
        }
        let ghost mid = *self;
        self.frame_status.forget(rec.surface);
        proof {
            assert forall|o: ObjectId| o != rec.surface implies seq_status_of(
                self.frame_status.entries@,
                o,
            ) == seq_status_of(old(self).frame_status.entries@, o) by {
                assert(self.frame_status.status_of(o) == mid.frame_status.status_of(o));
            }
            assert(seq_status_of(self.frame_status.entries@, rec.surface) == (
            crate::frame::FrameStatus::Received)) by {
                assert(self.frame_status.status_of(rec.surface) == (
                crate::frame::FrameStatus::Received));
            }
        }
        out.requests.push(ProtocolRequest::DestroySurface { surface: rec.surface });
        out.events.push(
            SctkEvent::LayerSurfaceEvent { variant: LayerSurfaceEventVariant::Done, id: rec.surface },
        );
        out
    }

    /// Changes the anchors of the layer surface with consumer id `id` and
    /// marks it for a coalesced recommit.
    pub fn layer_surface_set_anchor(&mut self, id: Id, anchor: u32) -> (out: StepOutput)
        requires
            old(self).wf(),
        ensures
            final(self).wf(),
            layer_set_anchor_post(old(self)@, final(self)@, id, anchor, out.requests@, out.events@),
    {
        let mut out = StepOutput::new();
        let i = match self.find_layer_index(id) {
            Some(i) => i,
            None => {
                return out;
            }
        };
        let mut rec = self.layer_surfaces.remove(i);
        rec.anchor = anchor;
        self.layer_surfaces.insert(i, rec);
        proof {
            assert(self.layer_surfaces@ =~= old(self)@.layer_surfaces.update(
                i as int,
                LayerSurfaceRecord { anchor, ..old(self)@.layer_surfaces[i as int] },
            ));
        }
        out.requests.push(ProtocolRequest::SetAnchor { surface: rec.surface, anchor });
        self.mark_to_commit(id, rec.surface);
        out
    }

    /// Changes the exclusive zone of the layer surface with consumer id `id`
    /// and marks it for a coalesced recommit.
    pub fn layer_surface_set_exclusive_zone(&mut self, id: Id, exclusive_zone: i32) -> (out:
        StepOutput)
        requires
            old(self).wf(),
        ensures
            final(self).wf(),
            layer_set_exclusive_zone_post(old(self)@, final(self)@, id, exclusive_zone, out.requests@, out.events@),
    {
        let mut out = StepOutput::new();
        let i = match self.find_layer_index(id) {
            Some(i) => i,
            None => {
                return out;
            }
        };
        let mut rec = self.layer_surfaces.remove(i);
        rec.exclusive_zone = exclusive_zone;
        self.layer_surfaces.insert(i, rec);
        proof {
            assert(self.layer_surfaces@ =~= old(self)@.layer_surfaces.update(
                i as int,
                LayerSurfaceRecord { exclusive_zone, ..old(self)@.layer_surfaces[i as int] },
            ));
        }
        out.requests.push(
            ProtocolRequest::SetExclusiveZone { surface: rec.surface, zone: exclusive_zone },
        );
        self.mark_to_commit(id, rec.surface);
        out
    }

    /// Changes the margins of the layer surface with consumer id `id` and
    /// marks it for a coalesced recommit.
    pub fn layer_surface_set_margin(&mut self, id: Id, margin: crate::geometry::Margin) -> (out:
        StepOutput)
        requires
            old(self).wf(),
        ensures
            final(self).wf(),
            layer_set_margin_post(old(self)@, final(self)@, id, margin, out.requests@, out.events@),
    {
        let mut out = StepOutput::new();
        let i = match self.find_layer_index(id) {
            Some(i) => i,
            None => {
                return out;
            }
        };
        let mut rec = self.layer_surfaces.remove(i);
        rec.margin = margin;
        self.layer_surfaces.insert(i, rec);
        proof {
            assert(self.layer_surfaces@ =~= old(self)@.layer_surfaces.update(
                i as int,
                LayerSurfaceRecord { margin, ..old(self)@.layer_surfaces[i as int] },
            ));
        }
        out.requests.push(ProtocolRequest::SetMargin { surface: rec.surface, margin });
        self.mark_to_commit(id, rec.surface);
        out
    }

    /// Changes how the layer surface with consumer id `id` takes keyboard
    /// focus and marks it for a coalesced recommit.
    pub fn layer_surface_set_keyboard_interactivity(
        &mut self,
        id: Id,
        keyboard_interactivity: crate::geometry::KeyboardInteractivity,
    ) -> (out: StepOutput)
        requires
            old(self).wf(),
        ensures
            final(self).wf(),
            layer_set_keyboard_interactivity_post(old(self)@, final(self)@, id, keyboard_interactivity, out.requests@, out.events@),
    {
        let mut out = StepOutput::new();
        let i = match self.find_layer_index(id) {
            Some(i) => i,
            None => {
                return out;
            }
        };
        let mut rec = self.layer_surfaces.remove(i);
        rec.keyboard_interactivity = keyboard_interactivity;
        self.layer_surfaces.insert(i, rec);
        proof {
            assert(self.layer_surfaces@ =~= old(self)@.layer_surfaces.update(
                i as int,
                LayerSurfaceRecord {
                    keyboard_interactivity,
                    ..old(self)@.layer_surfaces[i as int]
                },
            ));
        }
        out.requests.push(
            ProtocolRequest::SetKeyboardInteractivity {
                surface: rec.surface,
                keyboard_interactivity,
            },
        );
        self.mark_to_commit(id, rec.surface);
        out
    }

    /// Moves the layer surface with consumer id `id` to another layer band
    /// and marks it for a coalesced recommit.
    pub fn layer_surface_set_layer(&mut self, id: Id, layer: crate::geometry::Layer) -> (out:
        StepOutput)
        requires
            old(self).wf(),
        ensures
            final(self).wf(),
            layer_set_layer_post(old(self)@, final(self)@, id, layer, out.requests@, out.events@),
    {
        let mut out = StepOutput::new();
        let i = match self.find_layer_index(id) {
            Some(i) => i,
            None => {
                return out;
            }
        };
        let mut rec = self.layer_surfaces.remove(i);
        rec.layer = layer;
        self.layer_surfaces.insert(i, rec);
        proof {
            assert(self.layer_surfaces@ =~= old(self)@.layer_surfaces.update(
                i as int,
                LayerSurfaceRecord { layer, ..old(self)@.layer_surfaces[i as int] },
            ));
        }
        out.requests.push(ProtocolRequest::SetLayer { surface: rec.surface, layer });
        self.mark_to_commit(id, rec.surface);
        out
    }
}


/// Whether the anchor set contains every bit of `bits`; the executable side
/// of [`anchor_contains`].
pub fn anchor_is(anchor: u32, bits: u32) -> (r: bool)
    ensures
        r == anchor_contains(anchor, bits),
{
    anchor & bits == bits
}

} // verus!
