//! The core of a point-cloud animation: a wavefront of points is moved by a
//! parameterised vector field, watched through a camera, and the field's
//! parameter sets are browsed through a back/forward history.
//!
//! The crate owns the state, the control flow and the formulas. It never
//! interprets a real number itself. Coordinates and coefficients are carried
//! as [`geometry::Scalar`] bit patterns, time is counted in ticks and speed in
//! steps, and wherever a function has to compute with scalars it asks its
//! caller's arithmetic, a function value that answers one
//! [`arith::Request`] at a time. The contract of such a function names the
//! formula, an [`arith::Term`], that its result is a value of.
//!
//! Three more things are the caller's and come in as function values: the
//! view transform of the perspective projection, the source of new parameter
//! sets, and the notation in which numbers are written on status lines.

pub mod arith;
pub mod camera;
pub mod clock;
pub mod field;
pub mod geometry;
pub mod history;
pub mod params;
pub mod plot;
pub mod session;
pub mod status;
pub mod wavefront;
