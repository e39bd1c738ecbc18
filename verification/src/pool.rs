//! Arena storage with generational handles.
//!
//! Every cross-reference between machine entities (state to pose node,
//! transition to state, blend input to pose node) is a [`Handle`] into a
//! [`Pool`], never direct ownership: a handle can be checked for staleness
//! instead of dangling. The machine offers no deletion, so every live slot
//! keeps the first generation; the generation tag still travels with each
//! handle so that a fabricated or null handle is detectable.

use vstd::prelude::*;

verus! {

/// Generation tag of every live slot.
pub const FIRST_GENERATION: u32 = 1;

/// Index plus generation tag. The null handle has generation zero and refers
/// to nothing.
#[derive(Clone, Copy, Debug, PartialEq, Eq, Structural)]
pub struct Handle {
    pub index: u32,
    pub generation: u32,
}

impl Handle {
    /// The null handle.
    pub open spec fn spec_none() -> Handle {
        Handle { index: 0, generation: 0 }
    }

    /// A handle is "some" when its generation tag is set.
    pub open spec fn spec_is_some(&self) -> bool {
        self.generation != 0
    }

    pub open spec fn spec_is_none(&self) -> bool {
        self.generation == 0
    }

    #[verifier::when_used_as_spec(spec_none)]
    pub fn none() -> (r: Handle)
        ensures
            r == Handle::spec_none(),
    {
        Handle { index: 0, generation: 0 }
    }

    #[verifier::when_used_as_spec(spec_is_some)]
    pub fn is_some(&self) -> (r: bool)
        ensures
            r == self.spec_is_some(),
    {
        self.generation != 0
    }

    #[verifier::when_used_as_spec(spec_is_none)]
    pub fn is_none(&self) -> (r: bool)
        ensures
            r == self.spec_is_none(),
    {
        self.generation == 0
    }
}

/// A handle addresses a slot of an arena with `len` items.
pub open spec fn handle_valid(h: Handle, len: int) -> bool {
    h.generation == FIRST_GENERATION && (h.index as int) < len
}

/// Arena of values addressed by generational handles. Its view is the
/// sequence of the views of its items, in insertion order.
pub struct Pool<T> {
    items: Vec<T>,
}

impl<T: View> View for Pool<T> {
    type V = Seq<T::V>;

    closed spec fn view(&self) -> Seq<T::V> {
        Seq::new(self.items@.len(), |i: int| self.items@[i]@)
    }
}

impl<T: View> Pool<T> {
    /// A handle addresses a live slot of this pool.
    pub open spec fn spec_valid(&self, h: Handle) -> bool {
        h.generation == FIRST_GENERATION && (h.index as int) < self@.len()
    }

    pub fn new() -> (r: Pool<T>)
        ensures
            r@ == Seq::<T::V>::empty(),
    {
        let r = Pool { items: Vec::new() };
        proof {
            assert(r@ =~= Seq::<T::V>::empty());
        }
        r
    }

    pub fn len(&self) -> (n: usize)
        ensures
            n == self@.len(),
    {
        self.items.len()
    }

    /// Adds a value and hands back its handle, which stays valid for the
    /// pool's whole lifetime.
    pub fn spawn(&mut self, value: T) -> (h: Handle)
        requires
            old(self)@.len() < u32::MAX,
        ensures
            final(self)@ == old(self)@.push(value@),
            h.index as int == old(self)@.len(),
            h.generation == FIRST_GENERATION,
            final(self).spec_valid(h),
            h.spec_is_some(),
    {
        let index = self.items.len() as u32;
        self.items.push(value);
        proof {
            assert(self@ =~= old(self)@.push(value@));
        }
        Handle { index, generation: FIRST_GENERATION }
    }

    /// Whether a handle addresses a live slot.
    pub fn valid(&self, h: Handle) -> (r: bool)
        ensures
            r == self.spec_valid(h),
    {
        h.generation == FIRST_GENERATION && (h.index as usize) < self.items.len()
    }

    /// Checked access: `None` exactly on stale or null handles.
    pub fn get(&self, h: Handle) -> (r: Option<&T>)
        ensures
            match r {
                Some(v) => self.spec_valid(h) && v@ == self@[h.index as int],
                None => !self.spec_valid(h),
            },
    {
        if h.generation == FIRST_GENERATION && (h.index as usize) < self.items.len() {
            Some(&self.items[h.index as usize])
        } else {
            None
        }
    }

    /// Access by position.
    pub fn at(&self, i: usize) -> (r: &T)
        requires
            i < self@.len(),
        ensures
            r@ == self@[i as int],
    {
        &self.items[i]
    }

    /// Replaces the value at a position.
    pub fn put(&mut self, i: usize, value: T)
        requires
            i < old(self)@.len(),
        ensures
            final(self)@ == old(self)@.update(i as int, value@),
    {
        self.items.set(i, value);
        proof {
            assert(self@ =~= old(self)@.update(i as int, value@));
        }
    }
}

} // verus!
