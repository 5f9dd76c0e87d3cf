//! Requests on one surface and its companions, in the order in which they are
//! to be sent.
use crate::wayland::buffers::BufferId;
use vstd::prelude::*;

verus! {

/// One request. Unless it says otherwise it goes to the surface that the
/// list is for.
#[derive(Clone, Copy, Debug, PartialEq, Eq, Structural)]
pub enum Request {
    CreateSurface,
    /// Give the surface an input region without area.
    EmptyInputRegion,
    CreateViewport,
    /// Make the surface a synchronized subsurface of the window's root.
    CreateSubsurface,
    /// `wl_subsurface.set_position`.
    SetPosition { x: i32, y: i32 },
    /// Attach no buffer.
    Detach,
    Attach(BufferId),
    /// Damage from the upper left corner on.
    Damage { w: i32, h: i32 },
    /// `wp_viewport.set_source`.
    SetSource { x: i32, y: i32, w: i32, h: i32 },
    /// `wp_viewport.set_destination`.
    SetDestination { w: i32, h: i32 },
    Commit,
    /// Commit the surface that a popup belongs to.
    CommitOwner,
    /// Destroy a buffer that the compositor does not read.
    DestroyBuffer(BufferId),
    /// Give up a buffer: see `ManagedBuffers::retire_buffer`.
    RetireBuffer(BufferId),
    DestroyViewport,
    DestroySubsurface,
    DestroySurface,
    Flush,
    /// Ask the owner of the root surface for a commit.
    RequestPresent,
}

/// A request where a condition holds, and none otherwise.
pub open spec fn when(condition: bool, request: Request) -> Seq<Request> {
    if condition {
        seq![request]
    } else {
        Seq::empty()
    }
}

/// Appends a request where a condition holds.
pub fn push_when(out: &mut Vec<Request>, condition: bool, request: Request)
    ensures
        final(out)@ == old(out)@ + when(condition, request),
{
    if condition {
        out.push(request);
    }
    assert(out@ =~= old(out)@ + when(condition, request));
}

} // verus!
