//! Sleep/wake bookkeeping of a body.
use vstd::prelude::*;
use crate::math::UNIT;

verus! {

/// The activation status of a body.
///
/// This controls whether a body is sleeping or not: a body is awake exactly
/// when its energy is not zero.
#[derive(Copy, Clone, PartialEq, Eq, Hash, Debug, Structural)]
pub struct ActivationStatus {
    threshold: Option<i64>,
    energy: i64,
}

/// The default energy below which a body can be put to sleep: 0.01 units.
pub open spec fn spec_default_threshold() -> i64 {
    (UNIT / 100) as i64
}

impl ActivationStatus {
    /// The energy, averaged over several frames.
    pub closed spec fn spec_energy(&self) -> i64 {
        self.energy
    }

    /// The sleep threshold; `None` when the body cannot sleep.
    pub closed spec fn spec_threshold(&self) -> Option<i64> {
        self.threshold
    }

    pub open spec fn spec_is_active(&self) -> bool {
        self.spec_energy() != 0
    }

    /// The default amount of energy below which a body can be put to sleep.
    pub fn default_threshold() -> (r: i64)
        ensures
            r == spec_default_threshold(),
    {
        UNIT / 100
    }

    /// A status with the default threshold, awake.
    pub fn new_active() -> (r: Self)
        ensures
            r.spec_threshold() == Some(spec_default_threshold()),
            r.spec_energy() == 4 * spec_default_threshold(),
            r.spec_is_active(),
    {
        ActivationStatus {
            threshold: Some(Self::default_threshold()),
            energy: Self::default_threshold() * 4,
        }
    }

    /// A status with the default threshold, asleep.
    pub fn new_inactive() -> (r: Self)
        ensures
            r.spec_threshold() == Some(spec_default_threshold()),
            r.spec_energy() == 0,
            !r.spec_is_active(),
    {
        ActivationStatus { threshold: Some(Self::default_threshold()), energy: 0 }
    }

    /// Returns `true` if the body is not asleep.
    pub fn is_active(&self) -> (r: bool)
        ensures
            r == self.spec_is_active(),
    {
        self.energy != 0
    }

    /// The threshold below which the body can be put to sleep.
    ///
    /// A value of `None` indicates that the body cannot sleep.
    pub fn deactivation_threshold(&self) -> (r: Option<i64>)
        ensures
            r == self.spec_threshold(),
    {
        self.threshold
    }

    /// Sets the threshold below which the body can be put to sleep.
    ///
    /// A value of `None` prevents the body from sleeping.
    pub fn set_deactivation_threshold(&mut self, threshold: Option<i64>)
        ensures
            final(self).spec_threshold() == threshold,
            final(self).spec_energy() == old(self).spec_energy(),
    {
        self.threshold = threshold;
    }

    /// The current energy averaged through several frames.
    pub fn energy(&self) -> (r: i64)
        ensures
            r == self.spec_energy(),
    {
        self.energy
    }

    /// Sets the current average energy of the body, as given.
    pub fn set_energy(&mut self, energy: i64)
        ensures
            final(self).spec_energy() == energy,
            final(self).spec_threshold() == old(self).spec_threshold(),
    {
        self.energy = energy;
    }
}

/// Setting the energy decides activity: after `set_energy(e)` the status is
/// awake exactly when `e` is not zero, whatever it was before.
pub proof fn lemma_set_energy_decides_activity(before: ActivationStatus, after: ActivationStatus, e: i64)
    requires
        after.spec_energy() == e,
        after.spec_threshold() == before.spec_threshold(),
    ensures
        after.spec_is_active() == (e != 0),
{
}

} // verus!
