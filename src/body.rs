//! The interfaces that every simulated body and body part offers to joints and solvers.
use vstd::prelude::*;
use crate::activation::ActivationStatus;
use crate::handle::{BodyHandle, BodyPartHandle};
use crate::math::{Force, Inertia, Isometry, Point, Velocity};
use crate::solver::IntegrationParameters;

verus! {

/// The status of a body.
#[derive(Copy, Clone, PartialEq, Eq, Hash, Debug, Structural)]
pub enum BodyStatus {
    /// The body is disabled and ignored by the physics engine.
    Disabled,
    /// The body is static and thus cannot move.
    Static,
    /// The body is dynamic and thus can move and is subject to forces.
    Dynamic,
    /// The body is kinematic: its velocity is controlled by the user and it is
    /// not affected by forces and constraints.
    Kinematic,
}

/// The degrees of freedom that the solver sees: all of them for a dynamic body, none otherwise.
pub open spec fn spec_status_dependent_ndofs<B: Body>(b: B) -> usize {
    if b.spec_status() == BodyStatus::Dynamic {
        b.spec_ndofs()
    } else {
        0
    }
}

/// Implemented by each part of a body: a rigid segment owned by exactly one body.
pub trait BodyPart: Sized {
    /// The handle of this body part.
    spec fn spec_handle(&self) -> Option<BodyPartHandle>;

    /// The velocity of this body part.
    spec fn spec_velocity(&self) -> Velocity;

    /// Returns `true` if this body part is the ground.
    fn is_ground(&self) -> bool;

    /// The handle of this body part.
    fn handle(&self) -> (r: Option<BodyPartHandle>)
        ensures
            r == self.spec_handle(),
    ;

    /// The center of mass of this body part.
    fn center_of_mass(&self) -> Point;

    /// The position of this body part with respect to the ground.
    fn position(&self) -> Isometry;

    /// The velocity of this body part.
    fn velocity(&self) -> (r: Velocity)
        ensures
            r == self.spec_velocity(),
    ;

    /// The world-space inertia of this body part.
    fn inertia(&self) -> Inertia;

    /// The local-space inertia of this body part.
    fn local_inertia(&self) -> Inertia;

    /// Queues a force to be applied to this body part at the next integration:
    /// the current velocity and handle are left as they are.
    fn apply_force(&mut self, force: &Force)
        ensures
            final(self).spec_velocity() == old(self).spec_velocity(),
            final(self).spec_handle() == old(self).spec_handle(),
    ;
}

/// Implemented by every body: a simulated entity with degrees of freedom,
/// generalized velocities, an activation status and a collection of parts.
pub trait Body: Sized {
    /// The kind of part this body is made of.
    type Part: BodyPart;

    /// The status of this body.
    spec fn spec_status(&self) -> BodyStatus;

    /// The number of degrees of freedom of this body, whatever its status.
    spec fn spec_ndofs(&self) -> usize;

    /// Activation bookkeeping of this body.
    spec fn spec_activation_status(&self) -> ActivationStatus;

    /// The handle of this body.
    spec fn spec_handle(&self) -> Option<BodyHandle>;

    /// The companion id of this body.
    spec fn spec_companion_id(&self) -> usize;

    /// Whether `handle` names one of the parts of this body.
    spec fn spec_contains_part(&self, handle: BodyPartHandle) -> bool;

    /// The part named by `handle`, where `spec_contains_part(handle)`.
    spec fn spec_part(&self, handle: BodyPartHandle) -> Self::Part;

    /// The generalized velocities of this body.
    spec fn spec_generalized_velocity(&self) -> Vec<i64>;

    /// The generalized accelerations of this body.
    spec fn spec_generalized_acceleration(&self) -> Vec<i64>;

    /// The generalized accelerations that the generalized forces `forces` give this body.
    spec fn spec_inv_mass_mul(&self, forces: Vec<i64>) -> Vec<i64>;

    /// The generalized force that `force`, applied at the center of mass of `part`, exerts.
    spec fn spec_jacobian_mul_force(&self, part: Self::Part, force: Force) -> Vec<i64>;

    /// Returns `true` if this body is the ground, which has no degrees of freedom.
    fn is_ground(&self) -> (r: bool)
        ensures
            r ==> self.spec_ndofs() == 0,
        default_ensures
            !r,
    {
        false
    }

    /// Updates the kinematics, e.g., positions and jacobians, of this body.
    fn update_kinematics(&mut self)
        ensures
            final(self).spec_status() == old(self).spec_status(),
            final(self).spec_ndofs() == old(self).spec_ndofs(),
    ;

    /// Resets the timestep-specific dynamic information of this body.
    fn clear_dynamics(&mut self)
        ensures
            final(self).spec_status() == old(self).spec_status(),
            final(self).spec_ndofs() == old(self).spec_ndofs(),
    ;

    /// Applies a generalized displacement, one entry per degree of freedom, to this body.
    fn apply_displacement(&mut self, disp: &[i64])
        requires
            disp@.len() == old(self).spec_ndofs(),
        ensures
            final(self).spec_status() == old(self).spec_status(),
            final(self).spec_ndofs() == old(self).spec_ndofs(),
    ;

    /// The number of degrees of freedom of this body, taking its status into account:
    /// zero for any body whose status is not `BodyStatus::Dynamic`.
    fn status_dependent_ndofs(&self) -> (r: usize)
        ensures
            r == (if self.spec_status() == BodyStatus::Dynamic { self.spec_ndofs() } else { 0 }),
    {
        if self.is_dynamic() {
            self.ndofs()
        } else {
            0
        }
    }

    /// The velocity of the given body part, taking this body's status into account:
    /// zero for any body whose status is not `BodyStatus::Dynamic`.
    fn status_dependent_body_part_velocity<P: BodyPart>(&self, part: &P) -> (r: Velocity)
        ensures
            r == (if self.spec_status() == BodyStatus::Dynamic {
                part.spec_velocity()
            } else {
                Velocity::spec_zero()
            }),
    {
        if self.is_dynamic() {
            part.velocity()
        } else {
            Velocity::zero()
        }
    }

    /// Sets the handle of this body and its parts. Called by the body set when
    /// the body is added (`Some`) or removed (`None`).
    fn set_handle(&mut self, handle: Option<BodyHandle>)
        ensures
            final(self).spec_handle() == handle,
            final(self).spec_status() == old(self).spec_status(),
            final(self).spec_ndofs() == old(self).spec_ndofs(),
            final(self).spec_activation_status() == old(self).spec_activation_status(),
    ;

    /// The handle of this body.
    fn handle(&self) -> (r: Option<BodyHandle>)
        ensures
            r == self.spec_handle(),
    ;

    /// The status of this body.
    fn status(&self) -> (r: BodyStatus)
        ensures
            r == self.spec_status(),
    ;

    /// Information regarding activation and deactivation (sleeping) of this body.
    fn activation_status(&self) -> (r: &ActivationStatus)
        ensures
            *r == self.spec_activation_status(),
    ;

    /// Checks if this body is awake.
    fn is_active(&self) -> (r: bool)
        ensures
            r == self.spec_activation_status().spec_is_active(),
    ;

    /// Whether or not the status of this body is dynamic.
    fn is_dynamic(&self) -> (r: bool)
        ensures
            r == (self.spec_status() == BodyStatus::Dynamic),
    ;

    /// Whether or not the status of this body is kinematic.
    fn is_kinematic(&self) -> (r: bool)
        ensures
            r == (self.spec_status() == BodyStatus::Kinematic),
    ;

    /// Whether or not the status of this body is static.
    fn is_static(&self) -> (r: bool)
        ensures
            r == (self.spec_status() == BodyStatus::Static),
    ;

    /// The number of degrees of freedom of this body.
    fn ndofs(&self) -> (r: usize)
        ensures
            r == self.spec_ndofs(),
    ;

    /// The generalized accelerations at each degree of freedom of this body.
    fn generalized_acceleration(&self) -> (r: &[i64])
        ensures
            r@ == self.spec_generalized_acceleration()@,
            r@.len() == self.spec_ndofs(),
    ;

    /// The generalized velocities of this body.
    fn generalized_velocity(&self) -> (r: &[i64])
        ensures
            r@ == self.spec_generalized_velocity()@,
            r@.len() == self.spec_ndofs(),
    ;

    /// The companion id of this body.
    fn companion_id(&self) -> (r: usize)
        ensures
            r == self.spec_companion_id(),
    ;

    /// Sets the companion id of this body; the solver reassigns it at each step.
    fn set_companion_id(&mut self, id: usize)
        ensures
            final(self).spec_companion_id() == id,
            final(self).spec_status() == old(self).spec_status(),
            final(self).spec_ndofs() == old(self).spec_ndofs(),
    ;

    /// The mutable generalized velocities of this body.
    fn generalized_velocity_mut(&mut self) -> (r: &mut [i64])
        ensures
            r@ == old(self).spec_generalized_velocity()@,
            r@.len() == old(self).spec_ndofs(),
    ;

    /// Integrates the position of this body over one timestep.
    fn integrate(&mut self, params: &IntegrationParameters)
        ensures
            final(self).spec_status() == old(self).spec_status(),
            final(self).spec_ndofs() == old(self).spec_ndofs(),
    ;

    /// Forces the activation of this body.
    fn activate(&mut self)
        ensures
            final(self).spec_status() == old(self).spec_status(),
            final(self).spec_ndofs() == old(self).spec_ndofs(),
    ;

    /// Forces the activation of this body with the given level of energy.
    fn activate_with_energy(&mut self, energy: i64)
        ensures
            final(self).spec_activation_status().spec_energy() == energy,
            final(self).spec_status() == old(self).spec_status(),
            final(self).spec_ndofs() == old(self).spec_ndofs(),
    ;

    /// Puts this body to sleep.
    fn deactivate(&mut self)
        ensures
            !final(self).spec_activation_status().spec_is_active(),
            final(self).spec_status() == old(self).spec_status(),
            final(self).spec_ndofs() == old(self).spec_ndofs(),
    ;

    /// A reference to the specified body part, which must belong to this body.
    fn part(&self, handle: BodyPartHandle) -> (r: &Self::Part)
        requires
            self.spec_contains_part(handle),
        ensures
            *r == self.spec_part(handle),
    ;

    /// A mutable reference to the specified body part, which must belong to this body.
    fn part_mut(&mut self, handle: BodyPartHandle) -> (r: &mut Self::Part)
        requires
            old(self).spec_contains_part(handle),
        ensures
            *r == old(self).spec_part(handle),
    ;

    /// Returns `true` if `handle` is a valid handle for one of this body's parts.
    fn contains_part(&self, handle: BodyPartHandle) -> (r: bool)
        ensures
            r == self.spec_contains_part(handle),
    ;

    /// Converts the generalized forces held in `out` into generalized accelerations, in place.
    fn inv_mass_mul_generalized_forces(&self, out: &mut [i64])
        requires
            old(out)@.len() == self.spec_ndofs(),
        ensures
            forall|forces: Vec<i64>| forces@ == old(out)@
                ==> final(out)@ == (#[trigger] self.spec_inv_mass_mul(forces))@,
    ;

    /// Writes into `out` the generalized force that `force`, applied at the center
    /// of mass of `part`, exerts on this body.
    fn body_part_jacobian_mul_force(&self, part: &Self::Part, force: &Force, out: &mut [i64])
        requires
            old(out)@.len() == self.spec_ndofs(),
        ensures
            final(out)@ == self.spec_jacobian_mul_force(*part, *force)@,
            final(out)@.len() == self.spec_ndofs(),
    ;

    /// Writes into `out` the generalized accelerations that `force`, applied at
    /// the center of mass of `part`, gives this body: the generalized force it
    /// exerts, converted through the inverse mass.
    fn inv_mass_mul_body_part_force(&self, part: &Self::Part, force: &Force, out: &mut [i64])
        requires
            old(out)@.len() == self.spec_ndofs(),
        ensures
            final(out)@ == self.spec_inv_mass_mul(self.spec_jacobian_mul_force(*part, *force))@,
    {
        self.body_part_jacobian_mul_force(part, force, out);
        self.inv_mass_mul_generalized_forces(out);
    }
}

} // verus!
