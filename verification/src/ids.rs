//! Identifiers for surfaces.
//!
//! Two identities name a surface. An [`Id`] is the opaque, process-unique
//! handle chosen by the consumer runtime; it is the only identifier exposed
//! outward. An [`ObjectId`] is the identity of a live protocol object on the
//! compositor connection; it is stable for the object's lifetime but may be
//! reused after the object is destroyed.

use vstd::prelude::*;

verus! {

/// The opaque id of a window or other surface, assigned by the consumer
/// runtime.
#[derive(Debug, Clone, Copy, PartialEq, Eq, Structural, Hash, PartialOrd, Ord)]
pub struct Id(pub u64);

impl Id {
    /// No surface will match this id.
    pub fn none() -> (id: Id)
        ensures
            id == (Id(0u64)),
    {
        Id(0)
    }

    /// A reserved id, never handed out by [`Id::unique`] before the counter
    /// wraps.
    pub fn reserved() -> (id: Id)
        ensures
            id == (Id(1u64)),
    {
        Id(1)
    }

    /// Creates a new unique surface [`Id`] by advancing `counter`.
    ///
    /// The counter holds the next candidate value. Candidates `0` and `1`
    /// are skipped, so the result never collides with [`Id::none`] or
    /// [`Id::reserved`], even right after the counter has wrapped around.
    pub fn unique(counter: &mut u64) -> (id: Id)
        ensures
            *old(counter) <= 1 ==> id == (Id(2u64)) && *final(counter) == 3,
            *old(counter) > 1 ==> id == (Id(*old(counter)))
                && *final(counter) as int == (*old(counter) + 1) % 0x1_0000_0000_0000_0000,
            id.0 != 0,
            id.0 != 1,
    {
        let id = *counter;
        *counter = counter.wrapping_add(1);
        if id <= 1 {
            *counter = 3;
            Id(2)
        } else {
            Id(id)
        }
    }
}

/// The compositor-assigned identity of a live protocol object.
///
/// Identities are reused by the connection after an object is destroyed, so
/// every mapping keyed by an `ObjectId` must be removed synchronously when
/// the object goes away.
#[derive(Debug, Clone, Copy, PartialEq, Eq, Structural, Hash, PartialOrd, Ord)]
pub struct ObjectId(pub u64);

/// A surface id together with the kind of surface it names.
#[derive(Debug, Clone, Copy, PartialEq, Eq, Structural, Hash)]
pub enum SurfaceIdWrapper {
    LayerSurface(Id),
    Window(Id),
    Popup(Id),
    SessionLock(Id),
}

impl SurfaceIdWrapper {
    /// The surface id inside the wrapper.
    pub fn inner(&self) -> (id: Id)
        ensures
            id == match *self {
                SurfaceIdWrapper::LayerSurface(i) => i,
                SurfaceIdWrapper::Window(i) => i,
                SurfaceIdWrapper::Popup(i) => i,
                SurfaceIdWrapper::SessionLock(i) => i,
            },
    {
        match self {
            SurfaceIdWrapper::LayerSurface(id) => *id,
            SurfaceIdWrapper::Window(id) => *id,
            SurfaceIdWrapper::Popup(id) => *id,
            SurfaceIdWrapper::SessionLock(id) => *id,
        }
    }
}

} // verus!
