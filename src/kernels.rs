use vstd::prelude::*;

verus! {

/// The stepping algorithms offered.
#[derive(Clone, Copy, Debug, PartialEq, Eq, Structural)]
pub enum Method {
    /// Semi-implicit Euler: kick from the current positions, then drift.
    SymplecticEuler,
    /// Velocity Verlet: half kick, drift, half kick, reusing the last force.
    VelocityVerlet,
    /// Yoshida's fourth-order composition of four drifts and three kicks.
    Yoshida4,
    /// Classical fourth-order Runge-Kutta.
    RungeKutta4,
}

/// Whether a kernel works on absolute coordinates or on the displacement
/// from the state it was handed.
#[derive(Clone, Copy, Debug, PartialEq, Eq, Structural)]
pub enum Frame {
    Absolute,
    Relative,
}

/// One of the eight kernels: a method in a frame.
#[derive(Clone, Copy, Debug, PartialEq, Eq, Structural)]
pub struct KernelKind {
    pub method: Method,
    pub frame: Frame,
}

impl Method {
    /// Order of accuracy: halving the step size divides the global error by
    /// about `2^order`.
    pub open spec fn spec_order(self) -> nat {
        match self {
            Method::SymplecticEuler => 1,
            Method::VelocityVerlet => 2,
            Method::Yoshida4 => 4,
            Method::RungeKutta4 => 4,
        }
    }

    /// The order of accuracy of the method.
    pub fn order(&self) -> (r: u32)
        ensures
            r == self.spec_order(),
    {
        match self {
            Method::SymplecticEuler => 1,
            Method::VelocityVerlet => 2,
            Method::Yoshida4 => 4,
            Method::RungeKutta4 => 4,
        }
    }

    /// Whether the method is symplectic; all but Runge-Kutta are.
    pub fn is_symplectic(&self) -> (r: bool)
        ensures
            r == !(*self is RungeKutta4),
    {
        match self {
            Method::RungeKutta4 => false,
            _ => true,
        }
    }
}

/// The most accurate kernel offered, which the benchmark takes as the
/// reference trajectory.
pub fn reference_kind() -> (r: KernelKind)
    ensures
        r.method == Method::Yoshida4,
        r.frame == Frame::Relative,
{
    KernelKind { method: Method::Yoshida4, frame: Frame::Relative }
}

/// A kernel type, named by the method and frame it runs.
pub trait ThreeBodyKernel {
    spec fn spec_kind() -> KernelKind;

    fn kind() -> (r: KernelKind)
        ensures
            r == Self::spec_kind(),
    ;
}

pub struct SymplecticEulerKernel;

pub struct SymplecticEulerRelativeKernel;

pub struct VelVerletKernel;

pub struct VelVerletRelativeKernel;

pub struct Yoshida4Kernel;

pub struct Yoshida4RelativeKernel;

pub struct RK4Kernel;

pub struct RK4RelativeKernel;

impl ThreeBodyKernel for SymplecticEulerKernel {
    open spec fn spec_kind() -> KernelKind {
        KernelKind { method: Method::SymplecticEuler, frame: Frame::Absolute }
    }

    fn kind() -> (r: KernelKind) {
        KernelKind { method: Method::SymplecticEuler, frame: Frame::Absolute }
    }
}

impl ThreeBodyKernel for SymplecticEulerRelativeKernel {
    open spec fn spec_kind() -> KernelKind {
        KernelKind { method: Method::SymplecticEuler, frame: Frame::Relative }
    }

    fn kind() -> (r: KernelKind) {
        KernelKind { method: Method::SymplecticEuler, frame: Frame::Relative }
    }
}

impl ThreeBodyKernel for VelVerletKernel {
    open spec fn spec_kind() -> KernelKind {
        KernelKind { method: Method::VelocityVerlet, frame: Frame::Absolute }
    }

    fn kind() -> (r: KernelKind) {
        KernelKind { method: Method::VelocityVerlet, frame: Frame::Absolute }
    }
}

impl ThreeBodyKernel for VelVerletRelativeKernel {
    open spec fn spec_kind() -> KernelKind {
        KernelKind { method: Method::VelocityVerlet, frame: Frame::Relative }
    }

    fn kind() -> (r: KernelKind) {
        KernelKind { method: Method::VelocityVerlet, frame: Frame::Relative }
    }
}

impl ThreeBodyKernel for Yoshida4Kernel {
    open spec fn spec_kind() -> KernelKind {
        KernelKind { method: Method::Yoshida4, frame: Frame::Absolute }
    }

    fn kind() -> (r: KernelKind) {
        KernelKind { method: Method::Yoshida4, frame: Frame::Absolute }
    }
}

impl ThreeBodyKernel for Yoshida4RelativeKernel {
    open spec fn spec_kind() -> KernelKind {
        KernelKind { method: Method::Yoshida4, frame: Frame::Relative }
    }

    fn kind() -> (r: KernelKind) {
        KernelKind { method: Method::Yoshida4, frame: Frame::Relative }
    }
}

impl ThreeBodyKernel for RK4Kernel {
    open spec fn spec_kind() -> KernelKind {
        KernelKind { method: Method::RungeKutta4, frame: Frame::Absolute }
    }

    fn kind() -> (r: KernelKind) {
        KernelKind { method: Method::RungeKutta4, frame: Frame::Absolute }
    }
}

impl ThreeBodyKernel for RK4RelativeKernel {
    open spec fn spec_kind() -> KernelKind {
        KernelKind { method: Method::RungeKutta4, frame: Frame::Relative }
    }

    fn kind() -> (r: KernelKind) {
        KernelKind { method: Method::RungeKutta4, frame: Frame::Relative }
    }
}

} // verus!
