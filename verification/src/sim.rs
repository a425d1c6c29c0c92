//! Choices of the high-level simulation driver.
use vstd::prelude::*;

verus! {

/// Time integrator for the hyperbolic part of the step.
#[derive(Debug, Clone, Copy, PartialEq, Eq, Structural)]
pub enum Integrator {
    /// First-order forward Euler.
    ForwardEuler,
    /// Second-order SSP-RK2 (Heun). The default: it is what the MUSCL
    /// spatial reconstruction is designed to pair with.
    SspRk2,
}

impl Default for Integrator {
    /// SSP-RK2, the integrator the second-order reconstruction pairs with.
    fn default() -> (r: Self)
        ensures
            r == Integrator::SspRk2,
    {
        Integrator::SspRk2
    }
}

} // verus!
