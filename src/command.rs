//! Scene-mutation commands sent from the logic thread to the render thread.

use vstd::prelude::*;
use crate::geometry_id::GeometryId;

verus! {

/// A scene mutation. `K` is what the render thread needs of a camera, `E`
/// what it keeps of a piece of geometry.
#[derive(Debug)]
pub enum Command<K, E> {
    /// Leave the camera slot empty: frames are drawn with the identity view.
    ClearCamera,
    /// Put a camera in the slot, replacing the one there.
    SetCamera(K),
    /// Register geometry under its identifier, replacing what was there.
    AddGeometry(GeometryId, E),
}

} // verus!
