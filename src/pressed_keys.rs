//! Set of logical keys held down, kept in a bit vector.

use vstd::prelude::*;
use bit_vec::BitVec;

verus! {

/// `bit_vec::BitVec`, kept opaque: what it holds is named by [`bits_of`].
#[verifier::external_type_specification]
#[verifier::external_body]
#[verifier::reject_recursive_types(B)]
pub struct ExBitVec<B>(BitVec<B>);

/// The bits of `v`, in order.
pub uninterp spec fn bits_of(v: BitVec) -> Seq<bool>;

/// Relies on `BitVec::from_elem`: a vector of `len` bits, each equal to `bit`.
#[verifier::external_body]
fn bits_from_elem(len: usize, bit: bool) -> (r: BitVec)
    ensures
        bits_of(r) == Seq::new(len as nat, |_i: int| bit),
{
    BitVec::from_elem(len, bit)
}

/// Relies on `BitVec::get`: the bit at `i`, or `None` past the end.
#[verifier::external_body]
fn bit_at(v: &BitVec, i: usize) -> (r: Option<bool>)
    ensures
        i < bits_of(*v).len() ==> r == Some(bits_of(*v)[i as int]),
        i >= bits_of(*v).len() ==> r is None,
{
    v.get(i)
}

/// Relies on `BitVec::set`: replaces the bit at `i` (it panics past the end).
#[verifier::external_body]
fn set_bit(v: &mut BitVec, i: usize, x: bool)
    requires
        i < bits_of(*old(v)).len(),
    ensures
        bits_of(*final(v)) == bits_of(*old(v)).update(i as int, x),
{
    v.set(i, x)
}

/// Number of key slots.
pub const KEY_SLOTS: usize = 1024;

/// Logical keys.
#[derive(PartialEq, Eq, Structural, Copy, Clone, Debug)]
pub enum Key {
    MoveLeft,
    MoveRight,
    MoveUp,
    MoveDown,
    RollLeft,
    RollRight,
}

impl Key {
    /// The slot of the key.
    pub open spec fn slot(self) -> nat {
        match self {
            Key::MoveLeft => 0,
            Key::MoveRight => 1,
            Key::MoveUp => 2,
            Key::MoveDown => 3,
            Key::RollLeft => 4,
            Key::RollRight => 5,
        }
    }

    pub fn index(self) -> (r: usize)
        ensures
            r == self.slot(),
    {
        match self {
            Key::MoveLeft => 0,
            Key::MoveRight => 1,
            Key::MoveUp => 2,
            Key::MoveDown => 3,
            Key::RollLeft => 4,
            Key::RollRight => 5,
        }
    }
}

/// The keys held down.
pub struct PressedKeys {
    storage: BitVec,
}

impl PressedKeys {
    /// Whether `key` is held down.
    pub closed spec fn is_pressed(&self, key: Key) -> bool {
        bits_of(self.storage)[key.slot() as int]
    }

    pub closed spec fn wf(&self) -> bool {
        bits_of(self.storage).len() == KEY_SLOTS
    }

    /// No key held down.
    pub fn new() -> (r: PressedKeys)
        ensures
            r.wf(),
            forall|k: Key| !r.is_pressed(k),
    {
        PressedKeys { storage: bits_from_elem(KEY_SLOTS, false) }
    }

    /// Whether `key` is held down.
    pub fn test(&self, key: Key) -> (r: bool)
        requires
            self.wf(),
        ensures
            r == self.is_pressed(key),
    {
        match bit_at(&self.storage, key.index()) {
            Some(b) => b,
            None => false,
        }
    }

    /// Records whether `key` is held down; the other keys stay as they were.
    pub fn set(&mut self, key: Key, state: bool)
        requires
            old(self).wf(),
        ensures
            final(self).wf(),
            final(self).is_pressed(key) == state,
            forall|k: Key| k != key ==> final(self).is_pressed(k) == old(self).is_pressed(k),
    {
        set_bit(&mut self.storage, key.index(), state);
    }
}

} // verus!
