//! Stable, process-local identifiers of bodies, body parts and constraints.
use vstd::prelude::*;

verus! {

/// The handle of a body, as assigned by the body set that holds it.
#[derive(Copy, Clone, PartialEq, Eq, Hash, Debug, Structural)]
pub struct BodyHandle(pub usize);

/// The handle of a body part: the handle of its body and the part's index in that body.
#[derive(Copy, Clone, PartialEq, Eq, Hash, Debug, Structural)]
pub struct BodyPartHandle(pub BodyHandle, pub usize);

/// The handle of a constraint.
pub type ConstraintHandle = usize;

} // verus!
