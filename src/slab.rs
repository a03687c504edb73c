use vstd::prelude::*;

verus! {

/// Where a ray meets the two planes that bound a box on one axis, as order
/// keys of the ray parameters: `t0` for the plane through the min corner, `t1`
/// for the plane through the max corner. `t0_tol` and `t1_tol` are the keys
/// of those parameters plus the face tolerance (`1e-6`).
#[derive(Clone, Copy, Debug, PartialEq, Eq, Structural)]
pub struct SlabSpan {
    pub t0: u64,
    pub t1: u64,
    pub t0_tol: u64,
    pub t1_tol: u64,
}

/// How a ray meets a box. `t_axis` (0, 1, 2 for x, y, z) and `t_plane` (0
/// for `t0`, 1 for `t1`) name the parameter at which the hit lies: the box's
/// entry, or its exit for a ray that starts inside. `axis` and `plane` name
/// the face that gives the normal, chosen within the face tolerance;
/// `normal_positive` tells whether its outward normal points along the
/// positive axis. `from_inside` tells whether the ray started inside the box.
#[derive(Clone, Copy, Debug, PartialEq, Eq, Structural)]
pub struct BoxHit {
    pub t_axis: usize,
    pub t_plane: usize,
    pub axis: usize,
    pub plane: usize,
    pub from_inside: bool,
    pub normal_positive: bool,
}

/// Key of the parameter at plane `p` of axis `a`.
pub open spec fn key_at(s: [SlabSpan; 3], a: int, p: int) -> u64 {
    if p == 0 { s[a].t0 } else { s[a].t1 }
}

/// Parameter at which the ray enters the slab of one axis.
pub open spec fn span_entry(s: SlabSpan) -> u64 {
    if s.t0 <= s.t1 { s.t0 } else { s.t1 }
}

/// Parameter at which the ray leaves the slab of one axis.
pub open spec fn span_exit(s: SlabSpan) -> u64 {
    if s.t0 <= s.t1 { s.t1 } else { s.t0 }
}

/// Slab entry of one axis plus the tolerance.
pub open spec fn span_entry_tol(s: SlabSpan) -> u64 {
    if s.t0 <= s.t1 { s.t0_tol } else { s.t1_tol }
}

/// Slab exit of one axis plus the tolerance.
pub open spec fn span_exit_tol(s: SlabSpan) -> u64 {
    if s.t0 <= s.t1 { s.t1_tol } else { s.t0_tol }
}

pub open spec fn max3(a: u64, b: u64, c: u64) -> u64 {
    let m = if a >= b { a } else { b };
    if m >= c { m } else { c }
}

pub open spec fn min3(a: u64, b: u64, c: u64) -> u64 {
    let m = if a <= b { a } else { b };
    if m <= c { m } else { c }
}

/// The ray is inside the box from the last slab entry on.
pub open spec fn box_entry(s: [SlabSpan; 3]) -> u64 {
    max3(span_entry(s[0]), span_entry(s[1]), span_entry(s[2]))
}

/// The ray is inside the box up to the first slab exit.
pub open spec fn box_exit(s: [SlabSpan; 3]) -> u64 {
    min3(span_exit(s[0]), span_exit(s[1]), span_exit(s[2]))
}

/// The box's exit plus the tolerance (adding the tolerance keeps the order,
/// so this is the least of the slab exits plus the tolerance).
pub open spec fn box_exit_tol(s: [SlabSpan; 3]) -> u64 {
    min3(span_exit_tol(s[0]), span_exit_tol(s[1]), span_exit_tol(s[2]))
}

/// The origin of the ray (parameter `t_zero`) lies in the closed box.
pub open spec fn starts_inside(s: [SlabSpan; 3], t_zero: u64) -> bool {
    box_entry(s) <= t_zero && t_zero <= box_exit(s)
}

/// The parameter reported for the box: the entry if it lies after `t_min`,
/// else the exit (which counts only for a ray that starts inside).
pub open spec fn box_distance(s: [SlabSpan; 3], t_min: u64) -> u64 {
    if box_entry(s) > t_min { box_entry(s) } else { box_exit(s) }
}

/// The three slab intervals overlap, and either the entry lies in the open
/// window `(t_min, t_max)`, or the ray starts inside the box and the exit
/// lies in that window. A ray that starts outside and enters at or before
/// `t_min` misses.
pub open spec fn box_is_hit(s: [SlabSpan; 3], t_min: u64, t_max: u64, t_zero: u64) -> bool {
    &&& box_entry(s) <= box_exit(s)
    &&& if box_entry(s) > t_min {
        box_entry(s) < t_max
    } else {
        starts_inside(s, t_zero) && t_min < box_exit(s) && box_exit(s) < t_max
    }
}

/// The slab entry of axis `a` is the box's entry, within the tolerance.
pub open spec fn near_entry(s: [SlabSpan; 3], a: int) -> bool {
    span_entry(s[a]) == box_entry(s) || box_entry(s) < span_entry_tol(s[a])
}

/// The slab exit of axis `a` is the box's exit, within the tolerance.
pub open spec fn near_exit(s: [SlabSpan; 3], a: int) -> bool {
    span_exit(s[a]) == box_exit(s) || span_exit(s[a]) < box_exit_tol(s)
}

/// The first axis, in x, y, z order, whose value is `m`.
pub open spec fn first_axis_at(v0: u64, v1: u64, v2: u64, m: u64) -> usize {
    if v0 == m { 0 } else if v1 == m { 1 } else { 2 }
}

/// Plane of axis `a` at which the ray enters its slab.
pub open spec fn entry_plane(s: [SlabSpan; 3], a: int) -> usize {
    if s[a].t0 <= s[a].t1 { 0 } else { 1 }
}

/// The hit that a box reports where `box_is_hit` holds. Its parameter is the
/// box's entry, or its exit from inside, found on the first axis that gives
/// it exactly. The face lies on the first axis, in x, y, z order, whose slab
/// entry is the box's within the tolerance (for a hit from inside: whose slab
/// exit is). Its normal points outward: against the ray's direction on that
/// axis for an entry, along it for an exit.
pub open spec fn expected_box_hit(s: [SlabSpan; 3], t_min: u64, dir_positive: [bool; 3]) -> BoxHit {
    let from_inside = !(box_entry(s) > t_min);
    let t_axis: usize = if from_inside {
        first_axis_at(span_exit(s[0]), span_exit(s[1]), span_exit(s[2]), box_exit(s))
    } else {
        first_axis_at(span_entry(s[0]), span_entry(s[1]), span_entry(s[2]), box_entry(s))
    };
    let axis: usize = if from_inside {
        if near_exit(s, 0) { 0 } else if near_exit(s, 1) { 1 } else { 2 }
    } else {
        if near_entry(s, 0) { 0 } else if near_entry(s, 1) { 1 } else { 2 }
    };
    BoxHit {
        t_axis,
        t_plane: if from_inside { (1 - entry_plane(s, t_axis as int)) as usize } else { entry_plane(s, t_axis as int) },
        axis,
        plane: if from_inside { (1 - entry_plane(s, axis as int)) as usize } else { entry_plane(s, axis as int) },
        from_inside,
        normal_positive: if from_inside { dir_positive[axis as int] } else { !dir_positive[axis as int] },
    }
}

fn entry_of(s: SlabSpan) -> (r: (u64, u64))
    ensures
        r == (span_entry(s), span_entry_tol(s)),
{
    if s.t0 <= s.t1 { (s.t0, s.t0_tol) } else { (s.t1, s.t1_tol) }
}

fn exit_of(s: SlabSpan) -> (r: (u64, u64))
    ensures
        r == (span_exit(s), span_exit_tol(s)),
{
    if s.t0 <= s.t1 { (s.t1, s.t1_tol) } else { (s.t0, s.t0_tol) }
}

fn min_of(a: u64, b: u64) -> (r: u64)
    ensures
        r == (if a <= b { a } else { b }),
{
    if a <= b { a } else { b }
}

/// Slab test of a ray against an axis-aligned box, on the order keys of the
/// parameters where the ray meets the six planes. `t_zero` is the key of the
/// parameter `0` (the ray's origin), and `dir_positive[a]` tells whether the
/// ray's direction is positive on axis `a`.
pub fn box_hit(spans: [SlabSpan; 3], t_min: u64, t_max: u64, t_zero: u64, dir_positive: [bool; 3]) -> (r: Option<BoxHit>)
    ensures
        r is Some <==> box_is_hit(spans, t_min, t_max, t_zero),
        r matches Some(h) ==> h == expected_box_hit(spans, t_min, dir_positive),
        r matches Some(h) ==> {
            &&& h.t_axis < 3 && h.t_plane < 2 && h.axis < 3 && h.plane < 2
            &&& key_at(spans, h.t_axis as int, h.t_plane as int) == box_distance(spans, t_min)
            &&& t_min < box_distance(spans, t_min) < t_max
        },
{
    let (ex, ex_tol) = entry_of(spans[0]);
    let (ey, ey_tol) = entry_of(spans[1]);
    let (ez, ez_tol) = entry_of(spans[2]);
    let (xx, _) = exit_of(spans[0]);
    let (xy, _) = exit_of(spans[1]);
    let (xz, _) = exit_of(spans[2]);
    let m = if ex >= ey { ex } else { ey };
    let entry = if m >= ez { m } else { ez };
    let exit = min_of(min_of(xx, xy), xz);
    if entry > exit {
        return None;
    }
    let from_inside = !(entry > t_min);
    if from_inside {
        if !(entry <= t_zero && t_zero <= exit && t_min < exit && exit < t_max) {
            return None;
        }
    } else if !(entry < t_max) {
        return None;
    }
    let axis: usize = if from_inside {
        let (_, tx) = exit_of(spans[0]);
        let (_, ty) = exit_of(spans[1]);
        let (_, tz) = exit_of(spans[2]);
        let exit_tol = min_of(min_of(tx, ty), tz);
        if xx == exit || xx < exit_tol {
            0
        } else if xy == exit || xy < exit_tol {
            1
        } else {
            2
        }
    } else {
        if ex == entry || entry < ex_tol {
            0
        } else if ey == entry || entry < ey_tol {
            1
        } else {
            2
        }
    };
    let t_axis: usize = if from_inside {
        if xx == exit { 0 } else if xy == exit { 1 } else { 2 }
    } else {
        if ex == entry { 0 } else if ey == entry { 1 } else { 2 }
    };
    let t_entry_plane: usize = if spans[t_axis].t0 <= spans[t_axis].t1 { 0 } else { 1 };
    let face_entry_plane: usize = if spans[axis].t0 <= spans[axis].t1 { 0 } else { 1 };
    Some(BoxHit {
        t_axis,
        t_plane: if from_inside { 1 - t_entry_plane } else { t_entry_plane },
        axis,
        plane: if from_inside { 1 - face_entry_plane } else { face_entry_plane },
        from_inside,
        normal_positive: if from_inside { dir_positive[axis] } else { !dir_positive[axis] },
    })
}

/// A box is missed when, on some axis, the ray meets both bounding planes at
/// or before `t_min` (its origin is outside that slab and it moves away), or
/// both at or after `t_max` (it runs parallel to that slab, outside it).
pub proof fn lemma_away_from_box_misses(s: [SlabSpan; 3], t_min: u64, t_max: u64, t_zero: u64, a: int)
    requires
        0 <= a < 3,
        (s[a].t0 <= t_min && s[a].t1 <= t_min) || (s[a].t0 >= t_max && s[a].t1 >= t_max),
    ensures
        !box_is_hit(s, t_min, t_max, t_zero),
{
}

/// A ray whose origin is outside a box hits it exactly when the slab
/// intervals overlap and the entry lies in the window; the hit is then at
/// the entry, on a face whose normal points against the ray.
pub proof fn lemma_outside_box_hit_at_entry(
    s: [SlabSpan; 3],
    t_min: u64,
    t_max: u64,
    t_zero: u64,
    dir_positive: [bool; 3],
)
    requires
        !starts_inside(s, t_zero),
    ensures
        box_is_hit(s, t_min, t_max, t_zero) <==> box_entry(s) <= box_exit(s) && t_min < box_entry(s) < t_max,
        box_is_hit(s, t_min, t_max, t_zero) ==> {
            let h = expected_box_hit(s, t_min, dir_positive);
            &&& !h.from_inside
            &&& key_at(s, h.t_axis as int, h.t_plane as int) == box_entry(s)
            &&& h.normal_positive == !dir_positive[h.axis as int]
        },
{
}

/// A ray that starts inside a box (every slab entered at or before its
/// origin, which lies at or before `t_min`, and left after `t_min`) hits the
/// box where it leaves it, after `t_min`. Where the direction is positive on
/// the face's axis, the ray meets the two planes of that axis in order, and
/// it leaves through the max corner's plane, whose outward normal points
/// along the positive axis.
pub proof fn lemma_inside_box_hits_exit(
    s: [SlabSpan; 3],
    t_min: u64,
    t_max: u64,
    t_zero: u64,
    dir_positive: [bool; 3],
)
    requires
        forall|a: int| 0 <= a < 3 ==> span_entry(#[trigger] s[a]) <= t_zero && t_min < span_exit(s[a]),
        forall|a: int| 0 <= a < 3 && #[trigger] dir_positive[a] ==> s[a].t0 < s[a].t1,
        t_zero <= t_min,
        box_exit(s) < t_max,
    ensures
        box_is_hit(s, t_min, t_max, t_zero),
        box_distance(s, t_min) == box_exit(s),
        t_min < box_exit(s),
        ({
            let h = expected_box_hit(s, t_min, dir_positive);
            &&& h.from_inside
            &&& key_at(s, h.t_axis as int, h.t_plane as int) == box_exit(s)
            &&& dir_positive[h.axis as int] ==> h.plane == 1 && h.normal_positive
        }),
{
    assert(span_entry(s[0]) <= t_zero && t_min < span_exit(s[0]));
    assert(span_entry(s[1]) <= t_zero && t_min < span_exit(s[1]));
    assert(span_entry(s[2]) <= t_zero && t_min < span_exit(s[2]));
    let h = expected_box_hit(s, t_min, dir_positive);
    if dir_positive[h.axis as int] {
        assert(s[h.axis as int].t0 < s[h.axis as int].t1);
    }
}

} // verus!
