use rusty_nbody::kernels::reference_kind;
use rusty_nbody::{
    Frame, KernelKind, Method, RK4Kernel, RK4RelativeKernel, SymplecticEulerKernel,
    SymplecticEulerRelativeKernel, ThreeBodyKernel, VelVerletKernel, VelVerletRelativeKernel,
    Yoshida4Kernel, Yoshida4RelativeKernel,
};

fn kind(method: Method, frame: Frame) -> KernelKind {
    KernelKind { method, frame }
}

#[test]
fn each_kernel_type_names_its_method_and_frame() {
    assert_eq!(SymplecticEulerKernel::kind(), kind(Method::SymplecticEuler, Frame::Absolute));
    assert_eq!(SymplecticEulerRelativeKernel::kind(), kind(Method::SymplecticEuler, Frame::Relative));
    assert_eq!(VelVerletKernel::kind(), kind(Method::VelocityVerlet, Frame::Absolute));
    assert_eq!(VelVerletRelativeKernel::kind(), kind(Method::VelocityVerlet, Frame::Relative));
    assert_eq!(Yoshida4Kernel::kind(), kind(Method::Yoshida4, Frame::Absolute));
    assert_eq!(Yoshida4RelativeKernel::kind(), kind(Method::Yoshida4, Frame::Relative));
    assert_eq!(RK4Kernel::kind(), kind(Method::RungeKutta4, Frame::Absolute));
    assert_eq!(RK4RelativeKernel::kind(), kind(Method::RungeKutta4, Frame::Relative));
}

#[test]
fn orders_of_accuracy() {
    assert_eq!(Method::SymplecticEuler.order(), 1);
    assert_eq!(Method::VelocityVerlet.order(), 2);
    assert_eq!(Method::Yoshida4.order(), 4);
    assert_eq!(Method::RungeKutta4.order(), 4);
}

#[test]
fn only_runge_kutta_is_not_symplectic() {
    assert!(Method::SymplecticEuler.is_symplectic());
    assert!(Method::VelocityVerlet.is_symplectic());
    assert!(Method::Yoshida4.is_symplectic());
    assert!(!Method::RungeKutta4.is_symplectic());
}

#[test]
fn reference_is_relative_yoshida() {
    assert_eq!(reference_kind(), Yoshida4RelativeKernel::kind());
}
