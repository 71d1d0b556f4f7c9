//! Fixed-step fourth-order Runge-Kutta integration of vector fields over a
//! generic scalar type, with the vector helpers it is built from and the
//! state machine that drives a run of a fixed number of steps.
pub mod scalar;
pub mod vector;
pub mod rk4;
pub mod fields;
pub mod driver;
pub mod closed_form;
pub mod run;
