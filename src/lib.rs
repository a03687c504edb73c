//! Decision kernel of a path tracer with gravitational ray bending.
//!
//! The numeric work (vectors, roots, bending) is done by the caller in
//! floating point. Whatever compares ray parameters receives them as order
//! keys: integers that order as the parameters do (for instance the IEEE-754
//! total order of an `f64` mapped onto `u64`). This library then chooses the
//! reported root of a sphere, combines the slabs of a box, picks the nearest
//! hit of a scene, steers the evaluation of a path, and writes the image text.
pub mod path;
pub mod ppm;
pub mod scene;
pub mod slab;
pub mod sphere;
