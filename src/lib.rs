//! Bookkeeping core of a three-body integrator: the state model, the
//! conversions between its general and fixed-arity forms, the batching
//! driver, the catalogue of integration kernels with the coefficients of
//! the Yoshida composition, and the step-size sweep of the accuracy
//! benchmark.
//!
//! The state types are generic over the coordinate type `V` and the mass
//! type `M`; the arithmetic of the kernels themselves is supplied by the
//! caller.

pub mod benchmark;
pub mod coefficients;
pub mod driver;
pub mod kernels;
pub mod state;

pub use driver::simulate;
pub use kernels::{
    Frame, KernelKind, Method, RK4Kernel, RK4RelativeKernel, SymplecticEulerKernel,
    SymplecticEulerRelativeKernel, ThreeBodyKernel, VelVerletKernel, VelVerletRelativeKernel,
    Yoshida4Kernel, Yoshida4RelativeKernel,
};
pub use state::{PhysicsState, SystemView, ThreeBodyState};
