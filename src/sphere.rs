use vstd::prelude::*;

verus! {

/// A ray parameter lies strictly inside the window `(t_min, t_max)`.
pub open spec fn in_window(t: u64, t_min: u64, t_max: u64) -> bool {
    t_min < t && t < t_max
}

/// Of the two roots `near <= far` of a sphere's intersection quadratic (as
/// order keys), picks the one the sphere reports: the nearer if it lies in
/// the window, else the farther if it does. `Some(0)` stands for the nearer
/// root, `Some(1)` for the farther.
pub fn sphere_root(near: u64, far: u64, t_min: u64, t_max: u64) -> (r: Option<usize>)
    requires
        near <= far,
    ensures
        r == (if in_window(near, t_min, t_max) {
            Some(0usize)
        } else if in_window(far, t_min, t_max) {
            Some(1usize)
        } else {
            None
        }),
{
    if t_min < near && near < t_max {
        Some(0)
    } else if t_min < far && far < t_max {
        Some(1)
    } else {
        None
    }
}

} // verus!
