//! Joints that restrict the relative motion of two body parts by writing
//! velocity constraints for the solver.
use vstd::prelude::*;
use crate::body::{spec_status_dependent_ndofs, Body, BodyStatus};
use crate::body_set::BodySet;
use crate::handle::BodyPartHandle;
use crate::solver::{ConstraintSet, IntegrationParameters};

verus! {

/// Whether body `b` takes part in the solve: it has degrees of freedom the
/// solver sees and it is awake.
pub open spec fn spec_body_is_moving<B: Body>(b: B) -> bool {
    spec_status_dependent_ndofs(b) != 0 && b.spec_activation_status().spec_is_active()
}

/// Whether a joint between the bodies found under its two anchors is active:
/// both are found, and at least one of them takes part in the solve.
pub open spec fn spec_joint_is_active<B: Body>(b1: Option<B>, b2: Option<B>) -> bool {
    match (b1, b2) {
        (Some(x), Some(y)) => spec_body_is_moving(x) || spec_body_is_moving(y),
        _ => false,
    }
}

/// Implemented by joints that operate by generating constraints to restrict
/// the relative motion of two body parts.
pub trait JointConstraint: Sized {
    /// The two body parts affected by this joint.
    spec fn spec_anchors(&self) -> (BodyPartHandle, BodyPartHandle);

    /// The maximum number of velocity constraints this joint generates.
    spec fn spec_num_velocity_constraints(&self) -> usize;

    /// Returns `true` if the constraint is active.
    ///
    /// A joint is inactive when one of its anchor bodies cannot be found, or when
    /// neither anchor body is both awake and free to move.
    fn is_active<B: Body>(&self, bodies: &BodySet<B>) -> (r: bool)
        ensures
            r == spec_joint_is_active(
                bodies.spec_body(self.spec_anchors().0.0),
                bodies.spec_body(self.spec_anchors().1.0),
            ),
    {
        let (b1, b2) = self.anchors();
        let body1 = match bodies.body(b1.0) {
            Some(b) => b,
            None => return false,
        };
        let body2 = match bodies.body(b2.0) {
            Some(b) => b,
            None => return false,
        };

        let ndofs1 = body1.status_dependent_ndofs();
        let ndofs2 = body2.status_dependent_ndofs();

        (ndofs1 != 0 && body1.is_active()) || (ndofs2 != 0 && body2.is_active())
    }

    /// The maximum number of velocity constraints generated by this joint.
    fn num_velocity_constraints(&self) -> (r: usize)
        ensures
            r == self.spec_num_velocity_constraints(),
    ;

    /// The two body parts affected by this joint.
    fn anchors(&self) -> (r: (BodyPartHandle, BodyPartHandle))
        ensures
            r == self.spec_anchors(),
    ;

    /// Writes the velocity constraints of this joint.
    ///
    /// Jacobians go into `jacobians` at the cursors `ground_j_id` (rows that touch
    /// only bodies without degrees of freedom) and `j_id` (all other rows), which
    /// advance past what was written; nothing else of `jacobians` changes. The
    /// constraints are appended to `velocity_constraints`, at most
    /// `num_velocity_constraints()` of them, each naming this joint's anchors.
    fn velocity_constraints<B: Body>(
        &mut self,
        params: &IntegrationParameters,
        bodies: &BodySet<B>,
        ext_vels: &[i64],
        ground_j_id: &mut usize,
        j_id: &mut usize,
        jacobians: &mut [i64],
        velocity_constraints: &mut ConstraintSet,
    )
        requires
            *old(ground_j_id) <= old(jacobians)@.len(),
            *old(j_id) <= old(jacobians)@.len(),
        ensures
            final(self).spec_anchors() == old(self).spec_anchors(),
            final(self).spec_num_velocity_constraints() == old(self).spec_num_velocity_constraints(),
            *old(ground_j_id) <= *final(ground_j_id) <= old(jacobians)@.len(),
            *old(j_id) <= *final(j_id) <= old(jacobians)@.len(),
            final(jacobians)@.len() == old(jacobians)@.len(),
            forall|k: int|
                0 <= k < old(jacobians)@.len() && !(*old(ground_j_id) <= k < *final(ground_j_id))
                    && !(*old(j_id) <= k < *final(j_id))
                    ==> #[trigger] final(jacobians)@[k] == old(jacobians)@[k],
            old(velocity_constraints)@.len() <= final(velocity_constraints)@.len(),
            final(velocity_constraints)@.len() - old(velocity_constraints)@.len()
                <= old(self).spec_num_velocity_constraints(),
            forall|i: int|
                0 <= i < old(velocity_constraints)@.len()
                    ==> #[trigger] final(velocity_constraints)@[i] == old(velocity_constraints)@[i],
            forall|i: int|
                old(velocity_constraints)@.len() <= i < final(velocity_constraints)@.len() ==> {
                    &&& (#[trigger] final(velocity_constraints)@[i]).anchor1 == old(self).spec_anchors().0
                    &&& final(velocity_constraints)@[i].anchor2 == old(self).spec_anchors().1
                },
    ;

    /// Called after the solver has run: lets the joint keep the impulses found
    /// for its constraints as the next step's starting guess.
    fn cache_impulses(&mut self, constraints: &ConstraintSet)
        ensures
            final(self).spec_anchors() == old(self).spec_anchors(),
            final(self).spec_num_velocity_constraints() == old(self).spec_num_velocity_constraints(),
    ;
}

/// A joint between two static bodies is inactive.
pub proof fn lemma_joint_between_static_bodies_is_inactive<B: Body>(b1: B, b2: B)
    requires
        b1.spec_status() == BodyStatus::Static,
        b2.spec_status() == BodyStatus::Static,
    ensures
        !spec_joint_is_active(Some(b1), Some(b2)),
{
}

/// A joint one of whose anchor bodies is missing is inactive, whatever the other body.
pub proof fn lemma_joint_with_missing_body_is_inactive<B: Body>(b: Option<B>)
    ensures
        !spec_joint_is_active(b, None),
        !spec_joint_is_active(None, b),
{
}

/// A joint between an awake dynamic body with degrees of freedom and a static
/// body is active, whichever anchor each stands under.
pub proof fn lemma_joint_between_moving_and_static_is_active<B: Body>(moving: B, fixed: B)
    requires
        moving.spec_status() == BodyStatus::Dynamic,
        moving.spec_ndofs() != 0,
        moving.spec_activation_status().spec_is_active(),
        fixed.spec_status() == BodyStatus::Static,
    ensures
        spec_joint_is_active(Some(moving), Some(fixed)),
        spec_joint_is_active(Some(fixed), Some(moving)),
{
}

} // verus!
