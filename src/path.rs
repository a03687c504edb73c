use vstd::prelude::*;

verus! {

/// Where the evaluation of one primary ray stands.
#[derive(Clone, Copy, Debug, PartialEq, Eq, Structural)]
pub enum PathState {
    /// Marching the current ray segment by segment: `depth` scatter events
    /// are still allowed, and `steps_left` segments remain in the time budget.
    Marching { depth: i32, steps_left: u64 },
    /// The path ends black: depth exhausted or light absorbed.
    Black,
    /// The path escaped: it ends with the background gradient for the ray's
    /// final direction.
    Sky,
}

/// What marching one segment found.
#[derive(Clone, Copy, Debug, PartialEq, Eq, Structural)]
pub enum Segment {
    /// The segment hit a surface, whose material scattered the ray or
    /// absorbed it.
    Hit { scattered: bool },
    /// The segment hit nothing, and the ray was bent and advanced by one step.
    Clear,
    /// The segment hit nothing, and the ray reached the singularity.
    Singular,
}

/// State in which the evaluation of a ray with `depth` scatter events allowed
/// and a budget of `max_steps` segments begins.
pub open spec fn start_state(depth: int, max_steps: nat) -> PathState {
    if depth <= 0 {
        PathState::Black
    } else if max_steps == 0 {
        PathState::Sky
    } else {
        PathState::Marching { depth: depth as i32, steps_left: max_steps as u64 }
    }
}

/// State after a segment was marched from a `Marching` state. A scattered
/// ray starts afresh with one scatter event fewer and a full time budget.
pub open spec fn next_state(s: PathState, max_steps: nat, seg: Segment) -> PathState {
    match s {
        PathState::Marching { depth, steps_left } => match seg {
            Segment::Hit { scattered } => {
                if scattered {
                    start_state(depth - 1, max_steps)
                } else {
                    PathState::Black
                }
            },
            Segment::Clear => {
                if steps_left <= 1 {
                    PathState::Sky
                } else {
                    PathState::Marching { depth, steps_left: (steps_left - 1) as u64 }
                }
            },
            Segment::Singular => PathState::Sky,
        },
        _ => s,
    }
}

/// A marching state allows a scatter event and has a segment left within the
/// budget.
pub open spec fn state_wf(s: PathState, max_steps: nat) -> bool {
    s matches PathState::Marching { depth, steps_left } ==> depth > 0 && 0 < steps_left <= max_steps
}

/// Segments that can still be marched, at most, from a state.
pub open spec fn segments_left(s: PathState, max_steps: nat) -> nat {
    match s {
        PathState::Marching { depth, steps_left } => ((depth - 1) * max_steps + steps_left) as nat,
        _ => 0,
    }
}

/// Control of the evaluation of one primary ray. The caller marches the
/// segments, asks materials to scatter and keeps the running attenuation; the
/// evaluator decides what comes next.
pub struct Evaluator {
    pub max_steps: u64,
    pub state: PathState,
}

impl Evaluator {
    pub open spec fn wf(&self) -> bool {
        state_wf(self.state, self.max_steps as nat)
    }

    /// Starts the evaluation of a ray with `depth` scatter events allowed and
    /// a time budget of `max_steps` segments.
    pub fn new(depth: i32, max_steps: u64) -> (r: Evaluator)
        ensures
            r.wf(),
            r.max_steps == max_steps,
            r.state == start_state(depth as int, max_steps as nat),
            depth <= 0 ==> r.state == PathState::Black,
    {
        let state = if depth <= 0 {
            PathState::Black
        } else if max_steps == 0 {
            PathState::Sky
        } else {
            PathState::Marching { depth, steps_left: max_steps }
        };
        Evaluator { max_steps, state }
    }

    /// Whether the evaluation has ended, black or with the background.
    pub fn is_done(&self) -> (r: bool)
        ensures
            r <==> !(self.state is Marching),
    {
        !matches!(self.state, PathState::Marching { .. })
    }

    /// Takes in what marching the current segment found.
    pub fn advance(&mut self, seg: Segment)
        requires
            old(self).wf(),
            old(self).state is Marching,
        ensures
            final(self).wf(),
            final(self).max_steps == old(self).max_steps,
            final(self).state == next_state(old(self).state, old(self).max_steps as nat, seg),
            segments_left(final(self).state, final(self).max_steps as nat) < segments_left(
                old(self).state,
                old(self).max_steps as nat,
            ),
    {
        proof {
            lemma_next_state_decreases(self.state, self.max_steps as nat, seg);
        }
        match self.state {
            PathState::Marching { depth, steps_left } => {
                self.state = match seg {
                    Segment::Hit { scattered } => {
                        if !scattered {
                            PathState::Black
                        } else if depth - 1 <= 0 {
                            PathState::Black
                        } else {
                            PathState::Marching { depth: depth - 1, steps_left: self.max_steps }
                        }
                    },
                    Segment::Clear => {
                        if steps_left <= 1 {
                            PathState::Sky
                        } else {
                            PathState::Marching { depth, steps_left: steps_left - 1 }
                        }
                    },
                    Segment::Singular => PathState::Sky,
                };
            },
            _ => {},
        }
    }
}

/// Every segment marched brings the evaluation closer to its end, and the
/// state stays well formed: the evaluation ends.
pub proof fn lemma_next_state_decreases(s: PathState, max_steps: nat, seg: Segment)
    requires
        state_wf(s, max_steps),
        s is Marching,
        max_steps <= u64::MAX,
    ensures
        state_wf(next_state(s, max_steps, seg), max_steps),
        segments_left(next_state(s, max_steps, seg), max_steps) < segments_left(s, max_steps),
{
    if let PathState::Marching { depth, steps_left } = s {
        if seg is Hit && depth - 1 > 0 {
            assert((depth - 2) * max_steps + max_steps == (depth - 1) * max_steps) by (nonlinear_arith);
        }
        assert((depth - 1) * max_steps >= 0) by (nonlinear_arith)
            requires depth > 0;
    }
}

/// The evaluation of a ray marches at most `depth * max_steps` segments.
pub proof fn lemma_segments_bounded(depth: int, max_steps: nat)
    requires
        depth <= i32::MAX,
        max_steps <= u64::MAX,
    ensures
        segments_left(start_state(depth, max_steps), max_steps) <= if depth > 0 { depth * max_steps } else { 0 },
{
    if depth > 0 && max_steps > 0 {
        assert((depth - 1) * max_steps + max_steps == depth * max_steps) by (nonlinear_arith);
    }
}

/// State after the segments `segs` were marched in turn from `s`; a state
/// in which the evaluation has ended stays as it is.
pub open spec fn run(s: PathState, max_steps: nat, segs: Seq<Segment>) -> PathState
    decreases segs.len(),
{
    if segs.len() == 0 {
        s
    } else {
        run(next_state(s, max_steps, segs[0]), max_steps, segs.drop_first())
    }
}

/// `n` segments in a row that hit nothing.
pub open spec fn clear_segments(n: nat) -> Seq<Segment> {
    Seq::new(n, |i: int| Segment::Clear)
}

proof fn lemma_clear_run(depth: i32, k: nat, max_steps: nat)
    requires
        depth > 0,
        1 <= k <= u64::MAX,
    ensures
        run(PathState::Marching { depth, steps_left: k as u64 }, max_steps, clear_segments(k)) == PathState::Sky,
        forall|n: nat| n < k ==> (#[trigger] run(
            PathState::Marching { depth, steps_left: k as u64 },
            max_steps,
            clear_segments(n),
        )) is Marching,
    decreases k,
{
    let s = PathState::Marching { depth, steps_left: k as u64 };
    assert(clear_segments(k).drop_first() =~= clear_segments((k - 1) as nat));
    assert(clear_segments(k)[0] == Segment::Clear);
    if k > 1 {
        lemma_clear_run(depth, (k - 1) as nat, max_steps);
        assert(next_state(s, max_steps, Segment::Clear) == PathState::Marching {
            depth,
            steps_left: (k - 1) as u64,
        });
    } else {
        assert(next_state(s, max_steps, Segment::Clear) == PathState::Sky);
        assert(run(PathState::Sky, max_steps, clear_segments(0)) == PathState::Sky);
    }
    assert forall|n: nat| n < k implies (#[trigger] run(s, max_steps, clear_segments(n))) is Marching by {
        if n > 0 {
            assert(clear_segments(n).drop_first() =~= clear_segments((n - 1) as nat));
            assert(clear_segments(n)[0] == Segment::Clear);
            assert(run(PathState::Marching { depth, steps_left: (k - 1) as u64 }, max_steps, clear_segments((n - 1) as nat)) is Marching);
        }
    }
}

/// A path whose segments hit nothing stays in flight for its whole time
/// budget and then escapes: it ends with the background gradient, whatever
/// its depth.
pub proof fn lemma_clear_path_escapes(depth: int, max_steps: nat)
    requires
        1 <= depth <= i32::MAX,
        max_steps <= u64::MAX,
    ensures
        run(start_state(depth, max_steps), max_steps, clear_segments(max_steps)) == PathState::Sky,
        forall|n: nat| n < max_steps ==> (#[trigger] run(
            start_state(depth, max_steps),
            max_steps,
            clear_segments(n),
        )) is Marching,
{
    if max_steps > 0 {
        lemma_clear_run(depth as i32, max_steps, max_steps);
    }
}

} // verus!
