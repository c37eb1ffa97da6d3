//! When the force-directed layout stops.
//!
//! The forces themselves are stepped outside this module; after each step the
//! new positions are handed to a `Relaxation`, which compares them with the
//! positions before the step. The run ends `Stable` once no node moved more
//! than the threshold, or `Bounded` once the step limit is reached.
use vstd::prelude::*;

use crate::graph::{point_in_bounds, Point};

verus! {

/// Where a layout run stands.
#[derive(Debug, Clone, Copy, PartialEq, Eq, Structural)]
pub enum LayoutPhase {
    /// Nodes sit at their starting positions; no step was taken.
    Uninitialized,
    /// Steps are being taken.
    Stepping,
    /// The last step moved no node by more than the threshold.
    Stable,
    /// The step limit was reached first.
    Bounded,
}

/// The square of the distance between two points.
pub open spec fn distance_sq(p: Point, q: Point) -> int {
    (p.x - q.x) * (p.x - q.x) + (p.y - q.y) * (p.y - q.y)
}

pub open spec fn all_in_bounds(ps: Seq<Point>) -> bool {
    forall|i: int| 0 <= i < ps.len() ==> point_in_bounds(#[trigger] ps[i])
}

/// `d` is the largest squared displacement between `before` and `after`, node
/// by node (0 when there is no node).
pub open spec fn is_max_displacement_sq(before: Seq<Point>, after: Seq<Point>, d: int) -> bool {
    &&& forall|i: int| 0 <= i < before.len() ==> distance_sq(before[i], after[i]) <= d
    &&& before.len() == 0 ==> d == 0
    &&& before.len() > 0 ==> exists|i: int| 0 <= i < before.len() && distance_sq(before[i], after[i]) == d
}

proof fn lemma_distance_sq_fits(p: Point, q: Point)
    requires
        point_in_bounds(p),
        point_in_bounds(q),
    ensures
        0 <= distance_sq(p, q) <= 0x20_0000_0000_0000_0000_0000,
{
    let dx = p.x - q.x;
    let dy = p.y - q.y;
    assert(0 <= dx * dx <= 0x10_0000_0000_0000_0000_0000) by (nonlinear_arith)
        requires
            -0x200_0000_0000 <= dx <= 0x200_0000_0000,
    ;
    assert(0 <= dy * dy <= 0x10_0000_0000_0000_0000_0000) by (nonlinear_arith)
        requires
            -0x200_0000_0000 <= dy <= 0x200_0000_0000,
    ;
}

/// The largest squared distance that a node moved from `before` to `after`.
pub fn max_displacement_sq(before: &Vec<Point>, after: &Vec<Point>) -> (r: i128)
    requires
        before.len() == after.len(),
        all_in_bounds(before@),
        all_in_bounds(after@),
    ensures
        is_max_displacement_sq(before@, after@, r as int),
{
    let mut best: i128 = 0;
    let mut i: usize = 0;
    while i < before.len()
        invariant
            before.len() == after.len(),
            all_in_bounds(before@),
            all_in_bounds(after@),
            i <= before.len(),
            0 <= best,
            forall|j: int| 0 <= j < i ==> distance_sq(before@[j], after@[j]) <= best,
            i == 0 ==> best == 0,
            i > 0 ==> exists|j: int| 0 <= j < i && distance_sq(before@[j], after@[j]) == best,
        decreases before.len() - i,
    {
        let p = before[i];
        let q = after[i];
        proof {
            lemma_distance_sq_fits(p, q);
        }
        let dx = p.x as i128 - q.x as i128;
        let dy = p.y as i128 - q.y as i128;
        proof {
            assert(0 <= dx * dx <= 0x10_0000_0000_0000_0000_0000) by (nonlinear_arith)
                requires
                    -0x200_0000_0000 <= dx <= 0x200_0000_0000,
            ;
            assert(0 <= dy * dy <= 0x10_0000_0000_0000_0000_0000) by (nonlinear_arith)
                requires
                    -0x200_0000_0000 <= dy <= 0x200_0000_0000,
            ;
        }
        let d = dx * dx + dy * dy;
        assert(d as int == distance_sq(before@[i as int], after@[i as int]));
        if d > best || i == 0 {
            best = d;
        }
        i = i + 1;
    }
    best
}

/// A layout run in progress: its phase, how many steps it took, its limits,
/// and the positions before the last step.
pub struct Relaxation {
    phase: LayoutPhase,
    steps: usize,
    max_steps: usize,
    epsilon: i64,
    previous: Vec<Point>,
}

impl Relaxation {
    pub closed spec fn phase_of(&self) -> LayoutPhase {
        self.phase
    }

    pub closed spec fn steps_of(&self) -> nat {
        self.steps as nat
    }

    pub closed spec fn max_steps_of(&self) -> nat {
        self.max_steps as nat
    }

    pub closed spec fn epsilon_of(&self) -> int {
        self.epsilon as int
    }

    /// The positions against which the next step is measured.
    pub closed spec fn previous_of(&self) -> Seq<Point> {
        self.previous@
    }

    pub open spec fn wf(&self) -> bool {
        &&& self.steps_of() <= self.max_steps_of()
        &&& self.phase_of() == LayoutPhase::Stepping ==> self.steps_of() < self.max_steps_of()
        &&& self.epsilon_of() >= 0
        &&& all_in_bounds(self.previous_of())
    }

    /// A run of at most `max_steps` steps that counts as stable once no node
    /// moves more than `epsilon` (thousandths of a pixel) in a step.
    pub fn new(max_steps: usize, epsilon: i64) -> (r: Relaxation)
        requires
            epsilon >= 0,
        ensures
            r.wf(),
            r.phase_of() == LayoutPhase::Uninitialized,
            r.steps_of() == 0,
            r.max_steps_of() == max_steps,
            r.epsilon_of() == epsilon,
    {
        Relaxation {
            phase: LayoutPhase::Uninitialized,
            steps: 0,
            max_steps,
            epsilon,
            previous: Vec::new(),
        }
    }

    /// The phase of the run.
    pub fn phase(&self) -> (r: LayoutPhase)
        ensures
            r == self.phase_of(),
    {
        self.phase
    }

    /// The number of steps taken.
    pub fn steps(&self) -> (r: usize)
        ensures
            r == self.steps_of(),
    {
        self.steps
    }

    /// Whether another step is to be taken.
    pub fn is_running(&self) -> (r: bool)
        ensures
            r == (self.phase_of() == LayoutPhase::Stepping),
    {
        self.phase == LayoutPhase::Stepping
    }

    /// Starts the run from the starting positions `start`. A run allowed no
    /// step is over at once.
    pub fn start(&mut self, start: &Vec<Point>)
        requires
            old(self).wf(),
            old(self).phase_of() == LayoutPhase::Uninitialized,
            all_in_bounds(start@),
        ensures
            final(self).wf(),
            final(self).steps_of() == 0,
            final(self).max_steps_of() == old(self).max_steps_of(),
            final(self).epsilon_of() == old(self).epsilon_of(),
            final(self).previous_of() == start@,
            final(self).phase_of() == if old(self).max_steps_of() == 0 {
                LayoutPhase::Bounded
            } else {
                LayoutPhase::Stepping
            },
    {
        self.previous = start.clone();
        self.steps = 0;
        if self.max_steps == 0 {
            self.phase = LayoutPhase::Bounded;
        } else {
            self.phase = LayoutPhase::Stepping;
        }
    }

    /// Takes note of the positions `current` after one more step, and decides
    /// whether the run goes on.
    pub fn observe(&mut self, current: &Vec<Point>)
        requires
            old(self).wf(),
            old(self).phase_of() == LayoutPhase::Stepping,
            current.len() == old(self).previous_of().len(),
            all_in_bounds(current@),
        ensures
            final(self).wf(),
            final(self).steps_of() == old(self).steps_of() + 1,
            final(self).max_steps_of() == old(self).max_steps_of(),
            final(self).epsilon_of() == old(self).epsilon_of(),
            final(self).previous_of() == current@,
            exists|d: int| {
                &&& is_max_displacement_sq(old(self).previous_of(), current@, d)
                &&& final(self).phase_of() == if d <= old(self).epsilon_of() * old(self).epsilon_of() {
                    LayoutPhase::Stable
                } else if final(self).steps_of() >= old(self).max_steps_of() {
                    LayoutPhase::Bounded
                } else {
                    LayoutPhase::Stepping
                }
            },
    {
        let d = max_displacement_sq(&self.previous, current);
        self.steps = self.steps + 1;
        let eps = self.epsilon as i128;
        proof {
            assert(0 <= eps * eps <= 0x4000_0000_0000_0000_0000_0000_0000_0000) by (nonlinear_arith)
                requires
                    0 <= eps <= 0x8000_0000_0000_0000,
            ;
        }
        if d <= eps * eps {
            self.phase = LayoutPhase::Stable;
        } else if self.steps >= self.max_steps {
            self.phase = LayoutPhase::Bounded;
        }
        self.previous = current.clone();
        assert(is_max_displacement_sq(old(self).previous_of(), current@, d as int));
    }
}

} // verus!
