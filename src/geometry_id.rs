use vstd::prelude::*;

verus! {

/// Stable identifier of a piece of geometry.
///
/// Identifiers come from a [`GeometryIds`] allocator, which never hands out
/// the same value twice.
#[derive(PartialEq, Eq, Structural, Hash, Copy, Clone, Debug)]
pub struct GeometryId {
    pub value: u64,
}

/// Allocator of geometry identifiers, owned by whoever registers geometry.
pub struct GeometryIds {
    next: u64,
}

impl GeometryIds {
    /// The value that the next allocation hands out.
    pub closed spec fn next_value(&self) -> nat {
        self.next as nat
    }

    pub fn new() -> (r: GeometryIds)
        ensures
            r.next_value() == 0,
    {
        GeometryIds { next: 0 }
    }
}

impl GeometryId {
    /// Allocates a fresh identifier: each call returns a value strictly larger
    /// than all the earlier ones of the same allocator. `None` once the
    /// identifier space is used up.
    pub fn allocate(ids: &mut GeometryIds) -> (r: Option<GeometryId>)
        ensures
            old(ids).next_value() < u64::MAX ==> r == Some(GeometryId { value: old(ids).next_value() as u64 })
                && final(ids).next_value() == old(ids).next_value() + 1,
            old(ids).next_value() == u64::MAX ==> r is None && final(ids).next_value() == old(ids).next_value(),
    {
        if ids.next == u64::MAX {
            None
        } else {
            let id = GeometryId { value: ids.next };
            ids.next = ids.next + 1;
            Some(id)
        }
    }
}

} // verus!
