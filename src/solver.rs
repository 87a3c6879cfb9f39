//! What the solver shares with bodies and joints: integration parameters and
//! the set of velocity constraints that joints fill.
use vstd::prelude::*;
use crate::handle::BodyPartHandle;

verus! {

/// Parameters of one integration step.
#[derive(Copy, Clone, PartialEq, Eq, Hash, Debug, Structural)]
pub struct IntegrationParameters {
    /// The timestep length, in fixed-point units.
    pub dt: i64,
}

/// One velocity constraint row, as written by a joint.
#[derive(Copy, Clone, PartialEq, Eq, Hash, Debug, Structural)]
pub struct VelocityConstraint {
    /// The first body part whose relative motion the row restricts.
    pub anchor1: BodyPartHandle,
    /// The second body part whose relative motion the row restricts.
    pub anchor2: BodyPartHandle,
    /// Whether the row touches only bodies without degrees of freedom.
    pub ground: bool,
    /// Where the row's jacobian starts in the shared jacobian buffer.
    pub j_id: usize,
    /// How many scalars of the shared jacobian buffer the row uses.
    pub j_len: usize,
    /// The target relative velocity.
    pub rhs: i64,
    /// The impulse of the row: a warm-start guess, then what the solver found.
    pub impulse: i64,
}

/// The velocity constraints that the joints of one step have written.
pub struct ConstraintSet {
    constraints: Vec<VelocityConstraint>,
}

impl View for ConstraintSet {
    type V = Seq<VelocityConstraint>;

    closed spec fn view(&self) -> Seq<VelocityConstraint> {
        self.constraints@
    }
}

impl ConstraintSet {
    /// An empty set.
    pub fn new() -> (r: Self)
        ensures
            r@ == Seq::<VelocityConstraint>::empty(),
    {
        ConstraintSet { constraints: Vec::new() }
    }

    /// The number of constraints in the set.
    pub fn len(&self) -> (r: usize)
        ensures
            r == self@.len(),
    {
        self.constraints.len()
    }

    /// The constraint at position `i`.
    pub fn get(&self, i: usize) -> (r: &VelocityConstraint)
        requires
            i < self@.len(),
        ensures
            *r == self@[i as int],
    {
        &self.constraints[i]
    }

    /// Appends a constraint after those already written.
    pub fn push(&mut self, c: VelocityConstraint)
        ensures
            final(self)@ == old(self)@.push(c),
    {
        self.constraints.push(c);
    }

    /// Records the impulse that the solver found for the constraint at position `i`.
    pub fn set_impulse(&mut self, i: usize, impulse: i64)
        requires
            i < old(self)@.len(),
        ensures
            final(self)@ == old(self)@.update(i as int, VelocityConstraint { impulse, ..old(self)@[i as int] }),
    {
        let mut c = self.constraints[i];
        c.impulse = impulse;
        self.constraints.set(i, c);
    }

    /// Removes every constraint.
    pub fn clear(&mut self)
        ensures
            final(self)@ == Seq::<VelocityConstraint>::empty(),
    {
        self.constraints.clear();
    }
}

} // verus!
