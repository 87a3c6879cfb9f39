//! A lookup from body handles to bodies.
use vstd::prelude::*;
use crate::body::Body;
use crate::handle::BodyHandle;

verus! {

/// The bodies of a simulation, each under the handle it was given when added.
///
/// A handle is the index of its slot; a removed body leaves its slot empty, so
/// handles stay stable.
pub struct BodySet<B: Body> {
    bodies: Vec<Option<B>>,
}

impl<B: Body> View for BodySet<B> {
    type V = Seq<Option<B>>;

    closed spec fn view(&self) -> Seq<Option<B>> {
        self.bodies@
    }
}

impl<B: Body> BodySet<B> {
    /// The body under `handle`, if there is one.
    pub open spec fn spec_body(&self, handle: BodyHandle) -> Option<B> {
        if handle.0 < self@.len() {
            self@[handle.0 as int]
        } else {
            None
        }
    }

    /// An empty set.
    pub fn new() -> (r: Self)
        ensures
            r@ == Seq::<Option<B>>::empty(),
    {
        BodySet { bodies: Vec::new() }
    }

    /// The number of handles given out so far.
    pub fn len(&self) -> (r: usize)
        ensures
            r == self@.len(),
    {
        self.bodies.len()
    }

    /// Adds a body, gives it its handle, and returns that handle.
    pub fn add_body(&mut self, body: B) -> (r: BodyHandle)
        ensures
            r.0 == old(self)@.len(),
            final(self)@.len() == old(self)@.len() + 1,
            forall|i: int| 0 <= i < old(self)@.len() ==> final(self)@[i] == old(self)@[i],
            final(self).spec_body(r) matches Some(b) && b.spec_handle() == Some(r)
                && b.spec_status() == body.spec_status() && b.spec_ndofs() == body.spec_ndofs()
                && b.spec_activation_status() == body.spec_activation_status(),
    {
        let handle = BodyHandle(self.bodies.len());
        let mut body = body;
        body.set_handle(Some(handle));
        self.bodies.push(Some(body));
        handle
    }

    /// Removes the body under `handle`, clears its handle and returns it; `None`
    /// where there is no body under `handle`.
    pub fn remove_body(&mut self, handle: BodyHandle) -> (r: Option<B>)
        ensures
            old(self).spec_body(handle) is None ==> r is None && final(self)@ == old(self)@,
            old(self).spec_body(handle) matches Some(old_b) ==> {
                &&& r matches Some(b) && b.spec_handle() is None
                    && b.spec_status() == old_b.spec_status() && b.spec_ndofs() == old_b.spec_ndofs()
                    && b.spec_activation_status() == old_b.spec_activation_status()
                &&& final(self)@ == old(self)@.update(handle.0 as int, None)
            },
    {
        if handle.0 >= self.bodies.len() {
            return None;
        }
        let mut slot: Option<B> = None;
        std::mem::swap(&mut self.bodies[handle.0], &mut slot);
        match slot {
            Some(mut b) => {
                b.set_handle(None);
                Some(b)
            },
            None => None,
        }
    }

    /// Returns `true` if a body stands under `handle`.
    pub fn contains(&self, handle: BodyHandle) -> (r: bool)
        ensures
            r == self.spec_body(handle) is Some,
    {
        handle.0 < self.bodies.len() && self.bodies[handle.0].is_some()
    }

    /// The body under `handle`, if there is one.
    pub fn body(&self, handle: BodyHandle) -> (r: Option<&B>)
        ensures
            match r {
                Some(b) => self.spec_body(handle) == Some(*b),
                None => self.spec_body(handle) is None,
            },
    {
        if handle.0 < self.bodies.len() {
            self.bodies[handle.0].as_ref()
        } else {
            None
        }
    }
}

} // verus!
