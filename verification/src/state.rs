//! The state owned by the dispatch thread.
//!
//! One thread owns the protocol connection and everything here: the surface
//! records, the registry, the popup stack and the frame throttle. The
//! consumer runtime only ever talks to it through commands and reads back
//! notifications, so no field needs a lock. Each record carries its
//! [`Common`] block; the shell may mirror that block behind a mutex for the
//! consumer's render path, but the dispatch thread is its single writer.

use vstd::prelude::*;
use crate::commands::PopupSettings;
use crate::events::{LayerSurfaceConfigure, LockSurfaceConfigure, PopupConfigure};
use crate::frame::{FrameEntry, FrameStatus, FrameTracker};
use crate::geometry::{KeyboardInteractivity, Layer, Margin, Size};
use crate::ids::{Id, ObjectId};
use crate::registry::Registry;

verus! {

/// How often a deferred popup creation is retried before it fails.
pub const MAX_POPUP_RETRIES: u32 = 5;

/// Which optional protocol extensions the compositor offers. Bound once at
/// startup; a command needing an absent extension fails without stalling the
/// loop.
#[derive(Debug, Clone, Copy, PartialEq, Eq, Structural)]
pub struct Capabilities {
    /// The layer-shell extension.
    pub layer_shell: bool,
    /// The activation-token extension.
    pub activation: bool,
    /// The viewporter extension.
    pub viewporter: bool,
    /// The fractional-scale extension.
    pub fractional_scaling: bool,
    /// The session-lock extension.
    pub session_lock: bool,
}

/// The per-surface state shared with the consumer's render path.
///
/// The dispatch thread is the single writer; the consumer reads snapshots.
#[derive(Debug, Clone, Copy, PartialEq, Eq)]
pub struct Common {
    /// The fractional scale, in 120ths, once one was announced.
    pub fractional_scale: Option<u32>,
    /// The negotiated logical size.
    pub size: Size,
    /// The size last requested by the consumer; `None` on an axis defers to
    /// the compositor.
    pub requested_size: (Option<u32>, Option<u32>),
    /// Whether a viewport is bound for the surface.
    pub has_viewport: bool,
}

impl Common {
    /// A fresh block: no scale seen, a 1 by 1 size, nothing requested.
    pub fn fresh(size: Size, has_viewport: bool) -> (c: Common)
        ensures
            c == (Common {
                fractional_scale: None,
                size,
                requested_size: (None, None),
                has_viewport,
            }),
    {
        Common { fractional_scale: None, size, requested_size: (None, None), has_viewport }
    }
}

/// The record of a live layer surface.
#[derive(Debug, Clone, Copy, PartialEq, Eq)]
pub struct LayerSurfaceRecord {
    pub id: Id,
    pub surface: ObjectId,
    pub current_size: Option<Size>,
    pub layer: Layer,
    pub anchor: u32,
    pub keyboard_interactivity: KeyboardInteractivity,
    pub margin: Margin,
    pub exclusive_zone: i32,
    pub last_configure: Option<LayerSurfaceConfigure>,
    /// Whether a fractional-scale object is bound for the surface.
    pub has_fractional_scale: bool,
    pub common: Common,
}

/// The parent of a popup: a weak back-reference by protocol object, never an
/// owning edge.
#[derive(Debug, Clone, Copy, PartialEq, Eq, Structural)]
pub enum PopupParent {
    LayerSurface(ObjectId),
    Window(ObjectId),
    Popup(ObjectId),
}

impl PopupParent {
    /// The parent's surface, whatever kind it is.
    pub fn wl_surface(&self) -> (s: ObjectId)
        ensures
            s == match *self {
                PopupParent::LayerSurface(o) => o,
                PopupParent::Window(o) => o,
                PopupParent::Popup(o) => o,
            },
    {
        match self {
            PopupParent::LayerSurface(s) => *s,
            PopupParent::Window(s) => *s,
            PopupParent::Popup(s) => *s,
        }
    }
}

/// The record of a live popup.
#[derive(Debug, Clone, Copy, PartialEq, Eq)]
pub struct PopupRecord {
    pub id: Id,
    pub surface: ObjectId,
    pub parent: PopupParent,
    /// The toplevel under the popup chain.
    pub toplevel: ObjectId,
    pub positioner: crate::commands::PositionerSettings,
    pub last_configure: Option<PopupConfigure>,
    pub has_fractional_scale: bool,
    pub common: Common,
}

/// The record of a live session-lock surface.
#[derive(Debug, Clone, Copy, PartialEq, Eq)]
pub struct LockSurfaceRecord {
    pub id: Id,
    pub surface: ObjectId,
    pub last_configure: Option<LockSurfaceConfigure>,
    pub has_fractional_scale: bool,
    pub common: Common,
}

/// A window created and owned elsewhere, tracked for parenting popups.
#[derive(Debug, Clone, Copy, PartialEq, Eq, Structural)]
pub struct WindowRecord {
    pub id: Id,
    pub surface: ObjectId,
}

/// A popup creation waiting for its parent to stabilize, with the number of
/// retries already spent.
#[derive(Debug, Clone, Copy, PartialEq, Eq)]
pub struct PendingPopup {
    pub settings: PopupSettings,
    pub attempts: u32,
}

/// A surface marked for a coalesced recommit on the next dispatch pass.
#[derive(Debug, Clone, Copy, PartialEq, Eq, Structural)]
pub struct CommitMark {
    pub id: Id,
    pub surface: ObjectId,
}


/// Optional features detected at event-loop setup.
#[derive(Debug, Default, Clone, Copy, PartialEq, Eq, Structural)]
pub struct Features {
}

/// A pending update to a surface requested by the consumer.
#[derive(Debug, Default, Clone, Copy, PartialEq, Eq, Structural)]
pub struct SurfaceUserRequest {
    /// Whether a redraw was requested.
    pub redraw_requested: bool,
    /// Whether the frame should be refreshed.
    pub refresh_frame: bool,
}

/// The mathematical value of a [`SctkState`].
pub struct StateModel {
    pub windows: Seq<WindowRecord>,
    pub layer_surfaces: Seq<LayerSurfaceRecord>,
    pub popups: Seq<PopupRecord>,
    pub lock_surfaces: Seq<LockSurfaceRecord>,
    pub outputs: Seq<ObjectId>,
    pub id_map: Map<ObjectId, Id>,
    pub destroyed: Seq<Id>,
    pub frame_status: Seq<FrameEntry>,
    pub to_commit: Seq<CommitMark>,
    pub pending_popup: Option<PendingPopup>,
    pub activation_token_ctr: u32,
    pub reposition_token_ctr: u32,
    pub next_object_id: u64,
    pub session_lock_active: bool,
    pub caps: Capabilities,
}

/// The state the dispatch thread owns.
pub struct SctkState {
    pub windows: Vec<WindowRecord>,
    pub layer_surfaces: Vec<LayerSurfaceRecord>,
    pub popups: Vec<PopupRecord>,
    pub lock_surfaces: Vec<LockSurfaceRecord>,
    /// All present outputs.
    pub outputs: Vec<ObjectId>,
    /// The registry from protocol object identity to surface id.
    pub id_map: Registry,
    /// Ids whose destruction was emitted but whose consumer-side handle has
    /// not been dropped yet; popup creation is deferred while any is in
    /// flight.
    pub destroyed: Vec<Id>,
    /// The frame throttle over all live surfaces.
    pub frame_status: FrameTracker,
    /// Surfaces marked for a coalesced recommit.
    pub to_commit: Vec<CommitMark>,
    /// A deferred popup creation, if one is waiting.
    pub pending_popup: Option<PendingPopup>,
    /// The ticket counter for activation-token requests.
    pub activation_token_ctr: u32,
    /// The token counter for popup repositionings.
    pub reposition_token_ctr: u32,
    /// The next protocol object id to hand out. Object ids of this model are
    /// allocated client-side, in creation order.
    pub next_object_id: u64,
    /// Whether a session lock is currently held.
    pub session_lock_active: bool,
    /// The extensions the compositor offers.
    pub caps: Capabilities,
}

impl View for SctkState {
    type V = StateModel;

    open spec fn view(&self) -> StateModel {
        StateModel {
            windows: self.windows@,
            layer_surfaces: self.layer_surfaces@,
            popups: self.popups@,
            lock_surfaces: self.lock_surfaces@,
            outputs: self.outputs@,
            id_map: self.id_map@,
            destroyed: self.destroyed@,
            frame_status: self.frame_status.entries@,
            to_commit: self.to_commit@,
            pending_popup: self.pending_popup,
            activation_token_ctr: self.activation_token_ctr,
            reposition_token_ctr: self.reposition_token_ctr,
            next_object_id: self.next_object_id,
            session_lock_active: self.session_lock_active,
            caps: self.caps,
        }
    }
}

impl SctkState {
    /// The structural invariant of the dispatch state.
    ///
    /// Registry and frame entries are keyed at most once; every registered
    /// protocol id was allocated here, so a fresh allocation never collides;
    /// and the popups form one chain bottom-to-top: each popup's parent is
    /// the one below it, and the lowest popup roots at a window or layer
    /// surface. The chain shape is what creation ordering enforces and what
    /// ordered destruction relies on.
    pub open spec fn wf(&self) -> bool {
        &&& self.id_map.wf()
        &&& self.frame_status.wf()
        &&& forall|i: int|
            0 <= i < self.id_map.entries@.len()
                ==> (#[trigger] self.id_map.entries@[i]).protocol_id.0 < self.next_object_id
        &&& forall|i: int|
            0 < i < self.popups@.len() ==> (#[trigger] self.popups@[i]).parent == (
            PopupParent::Popup(self.popups@[i - 1].surface))
        &&& (self.popups@.len() > 0 ==> !(self.popups@[0].parent is Popup))
    }

    /// A fresh dispatch state for a connection with the given capabilities.
    pub fn new(caps: Capabilities) -> (s: SctkState)
        ensures
            s.wf(),
            s@.windows == Seq::<WindowRecord>::empty(),
            s@.layer_surfaces == Seq::<LayerSurfaceRecord>::empty(),
            s@.popups == Seq::<PopupRecord>::empty(),
            s@.lock_surfaces == Seq::<LockSurfaceRecord>::empty(),
            s@.outputs == Seq::<ObjectId>::empty(),
            s@.id_map == Map::<ObjectId, Id>::empty(),
            s@.destroyed == Seq::<Id>::empty(),
            s@.to_commit == Seq::<CommitMark>::empty(),
            s@.pending_popup is None,
            s@.activation_token_ctr == 0,
            s@.reposition_token_ctr == 0,
            s@.next_object_id == 1,
            !s@.session_lock_active,
            s@.caps == caps,
            forall|o: ObjectId| s.frame_status.status_of(o) == (FrameStatus::Received),
    {
        SctkState {
            windows: Vec::new(),
            layer_surfaces: Vec::new(),
            popups: Vec::new(),
            lock_surfaces: Vec::new(),
            outputs: Vec::new(),
            id_map: Registry::new(),
            destroyed: Vec::new(),
            frame_status: FrameTracker::new(),
            to_commit: Vec::new(),
            pending_popup: None,
            activation_token_ctr: 0,
            reposition_token_ctr: 0,
            next_object_id: 1,
            session_lock_active: false,
            caps,
        }
    }

    /// Finds the index of the layer surface with consumer id `id`.
    pub fn find_layer_index(&self, id: Id) -> (r: Option<usize>)
        ensures
            r == find_layer(self.layer_surfaces@, id),
            match r {
                Some(i) => i < self.layer_surfaces@.len() && self.layer_surfaces@[i as int].id == id
                    && forall|j: int| 0 <= j < i ==> self.layer_surfaces@[j].id != id,
                None => forall|j: int|
                    0 <= j < self.layer_surfaces@.len() ==> (#[trigger] self.layer_surfaces@[j]).id != id,
            },
    {
        let mut i: usize = 0;
        while i < self.layer_surfaces.len()
            invariant
                i <= self.layer_surfaces@.len(),
                forall|j: int| 0 <= j < i ==> (#[trigger] self.layer_surfaces@[j]).id != id,
                find_layer(self.layer_surfaces@, id) == find_layer_from(
                    self.layer_surfaces@,
                    id,
                    i as int,
                ),
            decreases self.layer_surfaces@.len() - i,
        {
            if self.layer_surfaces[i].id == id {
                return Some(i);
            }
            i += 1;
        }
        None
    }

    /// Finds the index of the layer surface with protocol object `surface`.
    pub fn find_layer_index_by_surface(&self, surface: ObjectId) -> (r: Option<usize>)
        ensures
            r == find_layer_by_surface(self.layer_surfaces@, surface),
            match r {
                Some(i) => i < self.layer_surfaces@.len() && self.layer_surfaces@[i as int].surface == surface
                    && forall|j: int| 0 <= j < i ==> self.layer_surfaces@[j].surface != surface,
                None => forall|j: int|
                    0 <= j < self.layer_surfaces@.len() ==> (#[trigger] self.layer_surfaces@[j]).surface != surface,
            },
    {
        let mut i: usize = 0;
        while i < self.layer_surfaces.len()
            invariant
                i <= self.layer_surfaces@.len(),
                forall|j: int| 0 <= j < i ==> (#[trigger] self.layer_surfaces@[j]).surface != surface,
                find_layer_by_surface(self.layer_surfaces@, surface) == find_layer_by_surface_from(
                    self.layer_surfaces@,
                    surface,
                    i as int,
                ),
            decreases self.layer_surfaces@.len() - i,
        {
            if self.layer_surfaces[i].surface == surface {
                return Some(i);
            }
            i += 1;
        }
        None
    }

    /// Finds the index of the popup with consumer id `id`.
    pub fn find_popup_index(&self, id: Id) -> (r: Option<usize>)
        ensures
            r == find_popup(self.popups@, id),
            match r {
                Some(i) => i < self.popups@.len() && self.popups@[i as int].id == id
                    && forall|j: int| 0 <= j < i ==> self.popups@[j].id != id,
                None => forall|j: int|
                    0 <= j < self.popups@.len() ==> (#[trigger] self.popups@[j]).id != id,
            },
    {
        let mut i: usize = 0;
        while i < self.popups.len()
            invariant
                i <= self.popups@.len(),
                forall|j: int| 0 <= j < i ==> (#[trigger] self.popups@[j]).id != id,
                find_popup(self.popups@, id) == find_popup_from(self.popups@, id, i as int),
            decreases self.popups@.len() - i,
        {
            if self.popups[i].id == id {
                return Some(i);
            }
            i += 1;
        }
        None
    }

    /// Finds the index of the popup with protocol object `surface`.
    pub fn find_popup_index_by_surface(&self, surface: ObjectId) -> (r: Option<usize>)
        ensures
            r == find_popup_by_surface(self.popups@, surface),
            match r {
                Some(i) => i < self.popups@.len() && self.popups@[i as int].surface == surface
                    && forall|j: int| 0 <= j < i ==> self.popups@[j].surface != surface,
                None => forall|j: int|
                    0 <= j < self.popups@.len() ==> (#[trigger] self.popups@[j]).surface != surface,
            },
    {
        let mut i: usize = 0;
        while i < self.popups.len()
            invariant
                i <= self.popups@.len(),
                forall|j: int| 0 <= j < i ==> (#[trigger] self.popups@[j]).surface != surface,
                find_popup_by_surface(self.popups@, surface) == find_popup_by_surface_from(
                    self.popups@,
                    surface,
                    i as int,
                ),
            decreases self.popups@.len() - i,
        {
            if self.popups[i].surface == surface {
                return Some(i);
            }
            i += 1;
        }
        None
    }

    /// Finds the index of the lock surface with consumer id `id`.
    pub fn find_lock_index(&self, id: Id) -> (r: Option<usize>)
        ensures
            r == find_lock(self.lock_surfaces@, id),
            match r {
                Some(i) => i < self.lock_surfaces@.len() && self.lock_surfaces@[i as int].id == id
                    && forall|j: int| 0 <= j < i ==> self.lock_surfaces@[j].id != id,
                None => forall|j: int|
                    0 <= j < self.lock_surfaces@.len() ==> (#[trigger] self.lock_surfaces@[j]).id != id,
            },
    {
        let mut i: usize = 0;
        while i < self.lock_surfaces.len()
            invariant
                i <= self.lock_surfaces@.len(),
                forall|j: int| 0 <= j < i ==> (#[trigger] self.lock_surfaces@[j]).id != id,
                find_lock(self.lock_surfaces@, id) == find_lock_from(
                    self.lock_surfaces@,
                    id,
                    i as int,
                ),
            decreases self.lock_surfaces@.len() - i,
        {
            if self.lock_surfaces[i].id == id {
                return Some(i);
            }
            i += 1;
        }
        None
    }

    /// Finds the index of the lock surface with protocol object `surface`.
    pub fn find_lock_index_by_surface(&self, surface: ObjectId) -> (r: Option<usize>)
        ensures
            r == find_lock_by_surface(self.lock_surfaces@, surface),
            match r {
                Some(i) => i < self.lock_surfaces@.len() && self.lock_surfaces@[i as int].surface == surface
                    && forall|j: int| 0 <= j < i ==> self.lock_surfaces@[j].surface != surface,
                None => forall|j: int|
                    0 <= j < self.lock_surfaces@.len() ==> (#[trigger] self.lock_surfaces@[j]).surface != surface,
            },
    {
        let mut i: usize = 0;
        while i < self.lock_surfaces.len()
            invariant
                i <= self.lock_surfaces@.len(),
                forall|j: int| 0 <= j < i ==> (#[trigger] self.lock_surfaces@[j]).surface != surface,
                find_lock_by_surface(self.lock_surfaces@, surface) == find_lock_by_surface_from(
                    self.lock_surfaces@,
                    surface,
                    i as int,
                ),
            decreases self.lock_surfaces@.len() - i,
        {
            if self.lock_surfaces[i].surface == surface {
                return Some(i);
            }
            i += 1;
        }
        None
    }

    /// Finds the index of the tracked window with consumer id `id`.
    pub fn find_window_index(&self, id: Id) -> (r: Option<usize>)
        ensures
            r == find_window(self.windows@, id),
            match r {
                Some(i) => i < self.windows@.len() && self.windows@[i as int].id == id
                    && forall|j: int| 0 <= j < i ==> self.windows@[j].id != id,
                None => forall|j: int|
                    0 <= j < self.windows@.len() ==> (#[trigger] self.windows@[j]).id != id,
            },
    {
        let mut i: usize = 0;
        while i < self.windows.len()
            invariant
                i <= self.windows@.len(),
                forall|j: int| 0 <= j < i ==> (#[trigger] self.windows@[j]).id != id,
                find_window(self.windows@, id) == find_window_from(self.windows@, id, i as int),
            decreases self.windows@.len() - i,
        {
            if self.windows[i].id == id {
                return Some(i);
            }
            i += 1;
        }
        None
    }



    /// Finds the index of the recommit mark for consumer id `id`.
    pub fn find_commit_index(&self, id: Id) -> (r: Option<usize>)
        ensures
            r == find_commit(self.to_commit@, id),
            match r {
                Some(i) => i < self.to_commit@.len() && self.to_commit@[i as int].id == id
                    && forall|j: int| 0 <= j < i ==> self.to_commit@[j].id != id,
                None => forall|j: int|
                    0 <= j < self.to_commit@.len() ==> (#[trigger] self.to_commit@[j]).id != id,
            },
    {
        let mut i: usize = 0;
        while i < self.to_commit.len()
            invariant
                i <= self.to_commit@.len(),
                forall|j: int| 0 <= j < i ==> (#[trigger] self.to_commit@[j]).id != id,
                find_commit(self.to_commit@, id) == find_commit_from(
                    self.to_commit@,
                    id,
                    i as int,
                ),
            decreases self.to_commit@.len() - i,
        {
            if self.to_commit[i].id == id {
                return Some(i);
            }
            i += 1;
        }
        None
    }

    /// Finds the index of `id` among the destroyed ids.
    pub fn find_destroyed_index(&self, id: Id) -> (r: Option<usize>)
        ensures
            r == find_id(self.destroyed@, id),
            match r {
                Some(i) => i < self.destroyed@.len() && self.destroyed@[i as int] == id,
                None => forall|j: int| 0 <= j < self.destroyed@.len() ==> self.destroyed@[j] != id,
            },
    {
        let mut i: usize = 0;
        while i < self.destroyed.len()
            invariant
                i <= self.destroyed@.len(),
                forall|j: int| 0 <= j < i ==> self.destroyed@[j] != id,
                find_id(self.destroyed@, id) == find_id_from(self.destroyed@, id, i as int),
            decreases self.destroyed@.len() - i,
        {
            if self.destroyed[i] == id {
                return Some(i);
            }
            i += 1;
        }
        None
    }

    /// Marks `surface` for a coalesced recommit under the consumer id `id`.
    pub fn mark_to_commit(&mut self, id: Id, surface: ObjectId)
        requires
            old(self).wf(),
        ensures
            final(self).wf(),
            final(self)@ == (StateModel {
                to_commit: mark_commit(old(self)@.to_commit, id, surface),
                ..old(self)@
            }),
    {
        match self.find_commit_index(id) {
            Some(i) => {
                let _ = self.to_commit.remove(i);
                self.to_commit.insert(i, CommitMark { id, surface });
                proof {
                    assert(self.to_commit@ =~= old(self)@.to_commit.update(
                        i as int,
                        CommitMark { id, surface },
                    ));
                }
            }
            None => {
                self.to_commit.push(CommitMark { id, surface });
            }
        }
    }

    /// Remembers that the surface with consumer id `id` was destroyed and
    /// its handle not yet dropped.
    pub fn insert_destroyed(&mut self, id: Id)
        requires
            old(self).wf(),
        ensures
            final(self).wf(),
            final(self)@ == (StateModel {
                destroyed: insert_id(old(self)@.destroyed, id),
                ..old(self)@
            }),
    {
        match self.find_destroyed_index(id) {
            Some(_) => {}
            None => {
                self.destroyed.push(id);
            }
        }
    }

    /// Forgets a destroyed id once the consumer dropped its handle.
    pub fn remove_destroyed(&mut self, id: Id)
        requires
            old(self).wf(),
        ensures
            final(self).wf(),
            final(self)@ == (StateModel {
                destroyed: remove_id(old(self)@.destroyed, id),
                ..old(self)@
            }),
    {
        match self.find_destroyed_index(id) {
            Some(i) => {
                let _ = self.destroyed.remove(i);
            }
            None => {}
        }
    }

    /// Whether some destroyed surface still awaits its consumer-side drop.
    pub fn has_destroyed_in_flight(&self) -> (r: bool)
        ensures
            r == (self.destroyed@.len() > 0),
    {
        self.destroyed.len() > 0
    }
}


/// First index in `s`, at or after `from`, marked for consumer id `id`.
pub open spec fn find_commit_from(s: Seq<CommitMark>, id: Id, from: int) -> Option<usize>
    decreases s.len() - from,
{
    if from < 0 || from >= s.len() {
        None
    } else if s[from].id == id {
        Some(from as usize)
    } else {
        find_commit_from(s, id, from + 1)
    }
}

/// First index in `s` marked for consumer id `id`.
pub open spec fn find_commit(s: Seq<CommitMark>, id: Id) -> Option<usize> {
    find_commit_from(s, id, 0)
}

/// The marks after marking `id` with `surface`: an existing mark for `id` is
/// replaced, otherwise one is appended.
pub open spec fn mark_commit(s: Seq<CommitMark>, id: Id, surface: ObjectId) -> Seq<CommitMark> {
    match find_commit(s, id) {
        Some(i) => s.update(i as int, CommitMark { id, surface }),
        None => s.push(CommitMark { id, surface }),
    }
}

/// First index of `id` in `s`, at or after `from`.
pub open spec fn find_id_from(s: Seq<Id>, id: Id, from: int) -> Option<usize>
    decreases s.len() - from,
{
    if from < 0 || from >= s.len() {
        None
    } else if s[from] == id {
        Some(from as usize)
    } else {
        find_id_from(s, id, from + 1)
    }
}

/// First index of `id` in `s`.
pub open spec fn find_id(s: Seq<Id>, id: Id) -> Option<usize> {
    find_id_from(s, id, 0)
}

/// `s` with `id` added once: unchanged when already present.
pub open spec fn insert_id(s: Seq<Id>, id: Id) -> Seq<Id> {
    if find_id(s, id) is Some {
        s
    } else {
        s.push(id)
    }
}

/// `s` with the first occurrence of `id` taken out, if any.
pub open spec fn remove_id(s: Seq<Id>, id: Id) -> Seq<Id> {
    match find_id(s, id) {
        Some(i) => s.remove(i as int),
        None => s,
    }
}

/// First index in `s`, at or after `from`, whose record has consumer id
/// `id`.
pub open spec fn find_layer_from(s: Seq<LayerSurfaceRecord>, id: Id, from: int) -> Option<usize>
    decreases s.len() - from,
{
    if from < 0 || from >= s.len() {
        None
    } else if s[from].id == id {
        Some(from as usize)
    } else {
        find_layer_from(s, id, from + 1)
    }
}

/// First index in `s` whose record has consumer id `id`.
pub open spec fn find_layer(s: Seq<LayerSurfaceRecord>, id: Id) -> Option<usize> {
    find_layer_from(s, id, 0)
}

pub open spec fn find_layer_by_surface_from(
    s: Seq<LayerSurfaceRecord>,
    surface: ObjectId,
    from: int,
) -> Option<usize>
    decreases s.len() - from,
{
    if from < 0 || from >= s.len() {
        None
    } else if s[from].surface == surface {
        Some(from as usize)
    } else {
        find_layer_by_surface_from(s, surface, from + 1)
    }
}

/// First index in `s` whose record has protocol object `surface`.
pub open spec fn find_layer_by_surface(s: Seq<LayerSurfaceRecord>, surface: ObjectId) -> Option<
    usize,
> {
    find_layer_by_surface_from(s, surface, 0)
}

pub open spec fn find_popup_from(s: Seq<PopupRecord>, id: Id, from: int) -> Option<usize>
    decreases s.len() - from,
{
    if from < 0 || from >= s.len() {
        None
    } else if s[from].id == id {
        Some(from as usize)
    } else {
        find_popup_from(s, id, from + 1)
    }
}

/// First index in `s` whose popup has consumer id `id`.
pub open spec fn find_popup(s: Seq<PopupRecord>, id: Id) -> Option<usize> {
    find_popup_from(s, id, 0)
}

pub open spec fn find_popup_by_surface_from(
    s: Seq<PopupRecord>,
    surface: ObjectId,
    from: int,
) -> Option<usize>
    decreases s.len() - from,
{
    if from < 0 || from >= s.len() {
        None
    } else if s[from].surface == surface {
        Some(from as usize)
    } else {
        find_popup_by_surface_from(s, surface, from + 1)
    }
}

/// First index in `s` whose popup has protocol object `surface`.
pub open spec fn find_popup_by_surface(s: Seq<PopupRecord>, surface: ObjectId) -> Option<usize> {
    find_popup_by_surface_from(s, surface, 0)
}

pub open spec fn find_lock_from(s: Seq<LockSurfaceRecord>, id: Id, from: int) -> Option<usize>
    decreases s.len() - from,
{
    if from < 0 || from >= s.len() {
        None
    } else if s[from].id == id {
        Some(from as usize)
    } else {
        find_lock_from(s, id, from + 1)
    }
}

/// First index in `s` whose lock surface has consumer id `id`.
pub open spec fn find_lock(s: Seq<LockSurfaceRecord>, id: Id) -> Option<usize> {
    find_lock_from(s, id, 0)
}

pub open spec fn find_lock_by_surface_from(
    s: Seq<LockSurfaceRecord>,
    surface: ObjectId,
    from: int,
) -> Option<usize>
    decreases s.len() - from,
{
    if from < 0 || from >= s.len() {
        None
    } else if s[from].surface == surface {
        Some(from as usize)
    } else {
        find_lock_by_surface_from(s, surface, from + 1)
    }
}

/// First index in `s` whose lock surface has protocol object `surface`.
pub open spec fn find_lock_by_surface(s: Seq<LockSurfaceRecord>, surface: ObjectId) -> Option<
    usize,
> {
    find_lock_by_surface_from(s, surface, 0)
}

pub open spec fn find_window_from(s: Seq<WindowRecord>, id: Id, from: int) -> Option<usize>
    decreases s.len() - from,
{
    if from < 0 || from >= s.len() {
        None
    } else if s[from].id == id {
        Some(from as usize)
    } else {
        find_window_from(s, id, from + 1)
    }
}

/// First index in `s` whose window has consumer id `id`.
pub open spec fn find_window(s: Seq<WindowRecord>, id: Id) -> Option<usize> {
    find_window_from(s, id, 0)
}

} // verus!
