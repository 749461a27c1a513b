use vstd::prelude::*;

verus! {

/// Width of the canvas, in tenths of a canvas unit.
pub const CANVAS_WIDTH: i64 = 1500;
/// Height of the canvas, in tenths of a canvas unit.
pub const CANVAS_HEIGHT: i64 = 1200;
/// Size of the fixed middle rectangle, in tenths.
pub const MIDDLE_WIDTH: i64 = 200;
pub const MIDDLE_HEIGHT: i64 = 300;
/// Size of a moving rectangle along and across its axis of motion, in tenths.
pub const RECT_LONG: i64 = 200;
pub const RECT_SHORT: i64 = 150;
/// Length of one step, in tenths: a damping factor of 0.8 on a unit step.
pub const STEP_TENTHS: i64 = 8;
/// Number of steps from the resting position to the outermost one.
///
/// The damped gap between the middle rectangle and the canvas edge, less one
/// rectangle, divided by the damped step: the damping cancels, leaving the
/// undamped gap in whole units: (120 - 30) / 2 - 20 = 25.
pub const OFFSET_LIMIT_STEPS: i64 = 25;
/// Bound on how far manual stepping may carry the phase in either direction.
pub const PHASE_MAX: i64 = 1_000_000_000;

#[derive(Clone, Copy, Debug, PartialEq, Eq, Structural)]
pub enum Direction {
    Growing,
    Shrinking,
}

/// Abstract state of the animator: the signed number of steps taken away from
/// the resting position, the current direction and the outermost phase.
pub struct Oscillation {
    pub phase: int,
    pub direction: Direction,
    pub limit: int,
}

/// Direction after looking at the phase: it turns at either end of the range.
pub open spec fn settle(direction: Direction, phase: int, limit: int) -> Direction {
    if phase >= limit {
        Direction::Shrinking
    } else if phase <= 0 {
        Direction::Growing
    } else {
        direction
    }
}

pub open spec fn advance(phase: int, direction: Direction) -> int {
    match direction {
        Direction::Growing => phase + 1,
        Direction::Shrinking => phase - 1,
    }
}

impl Oscillation {
    pub open spec fn valid(self) -> bool {
        &&& 1 <= self.limit <= PHASE_MAX
        &&& -PHASE_MAX <= self.phase <= PHASE_MAX
    }

    /// One automatic step: the direction is settled against the bounds before
    /// the step (so a phase carried out of range by hand is brought back) and
    /// again after it (so the direction turns on the step that reaches a bound).
    pub open spec fn tick(self) -> Oscillation {
        let d = settle(self.direction, self.phase, self.limit);
        let p = advance(self.phase, d);
        Oscillation { phase: p, direction: settle(d, p, self.limit), limit: self.limit }
    }

    pub open spec fn ticks(self, n: nat) -> Oscillation
        decreases n,
    {
        if n == 0 {
            self
        } else {
            self.ticks((n - 1) as nat).tick()
        }
    }

    /// One manual step, forward or back, saturating at the phase bound; the
    /// direction is left as it was.
    pub open spec fn manual(self, forward: bool) -> Oscillation {
        let p = if forward {
            if self.phase < PHASE_MAX { self.phase + 1 } else { self.phase }
        } else {
            if self.phase > -PHASE_MAX { self.phase - 1 } else { self.phase }
        };
        Oscillation { phase: p, ..self }
    }

    /// Offset of rectangle `i`, in tenths: the first two move up and down,
    /// the last two right and left.
    pub open spec fn offset(self, i: int) -> (int, int) {
        let d = self.phase * STEP_TENTHS;
        if i == 0 {
            (0, d)
        } else if i == 1 {
            (0, -d)
        } else if i == 2 {
            (d, 0)
        } else {
            (-d, 0)
        }
    }
}

/// Automatic steps never carry the phase out of `[0, limit]` once it is
/// inside: no offset ever grows beyond the limit, nor past the resting position.
pub proof fn lemma_ticks_stay_in_range(o: Oscillation, n: nat)
    requires
        o.valid(),
        0 <= o.phase <= o.limit,
    ensures
        o.ticks(n).limit == o.limit,
        0 <= o.ticks(n).phase <= o.limit,
        0 <= o.ticks(n).phase * STEP_TENTHS <= o.limit * STEP_TENTHS,
    decreases n,
{
    if n > 0 {
        lemma_ticks_stay_in_range(o, (n - 1) as nat);
    }
    let p = o.ticks(n).phase;
    assert(0 <= p * STEP_TENTHS <= o.limit * STEP_TENTHS) by (nonlinear_arith)
        requires
            0 <= p <= o.limit,
            STEP_TENTHS == 8,
    ;
}

proof fn lemma_growing_phase(limit: int, k: nat)
    requires
        1 <= limit,
        k < limit,
    ensures
        (Oscillation { phase: 0, direction: Direction::Growing, limit }).ticks(k) == (Oscillation {
            phase: k as int,
            direction: Direction::Growing,
            limit,
        }),
    decreases k,
{
    if k > 0 {
        lemma_growing_phase(limit, (k - 1) as nat);
    }
}

proof fn lemma_shrinking_phase(limit: int, j: nat)
    requires
        1 <= limit,
        j < limit,
    ensures
        (Oscillation { phase: 0, direction: Direction::Growing, limit }).ticks(
            (limit + j) as nat,
        ) == (Oscillation { phase: limit - j, direction: Direction::Shrinking, limit }),
    decreases j,
{
    if j > 0 {
        lemma_shrinking_phase(limit, (j - 1) as nat);
    } else {
        lemma_growing_phase(limit, (limit - 1) as nat);
    }
}

/// From rest, growing, the direction turns to shrinking on exactly the
/// `limit`-th automatic step, at the outermost phase, and back to growing on
/// the `2 * limit`-th, at rest again.
pub proof fn lemma_turns_after_limit(limit: int)
    requires
        1 <= limit,
    ensures
        (Oscillation { phase: 0, direction: Direction::Growing, limit }).ticks(limit as nat)
            == (Oscillation { phase: limit, direction: Direction::Shrinking, limit }),
        (Oscillation { phase: 0, direction: Direction::Growing, limit }).ticks((2 * limit) as nat)
            == (Oscillation { phase: 0, direction: Direction::Growing, limit }),
        forall|k: nat|
            0 < k < limit ==> (#[trigger] (Oscillation {
                phase: 0,
                direction: Direction::Growing,
                limit,
            }).ticks(k)).direction == Direction::Growing,
{
    lemma_shrinking_phase(limit, 0);
    lemma_shrinking_phase(limit, (limit - 1) as nat);
    assert forall|k: nat| 0 < k < limit implies (#[trigger] (Oscillation {
        phase: 0,
        direction: Direction::Growing,
        limit,
    }).ticks(k)).direction == Direction::Growing by {
        lemma_growing_phase(limit, k);
    }
}

/// The four offsets of the moving rectangles, kept as one shared phase: they
/// move in lock-step, each along its own direction vector.
pub struct OffsetAnimator {
    phase: i64,
    direction: Direction,
    limit: i64,
}

impl View for OffsetAnimator {
    type V = Oscillation;

    closed spec fn view(&self) -> Oscillation {
        Oscillation { phase: self.phase as int, direction: self.direction, limit: self.limit as int }
    }
}

impl OffsetAnimator {
    #[verifier::type_invariant]
    spec fn inv(self) -> bool {
        self@.valid()
    }

    /// An animator at rest, growing, that turns after `limit` steps.
    pub fn new(limit: i64) -> (r: OffsetAnimator)
        requires
            1 <= limit <= PHASE_MAX,
        ensures
            r@ == (Oscillation { phase: 0, direction: Direction::Growing, limit: limit as int }),
    {
        OffsetAnimator { phase: 0, direction: Direction::Growing, limit }
    }

    pub fn phase(&self) -> (r: i64)
        ensures
            r == self@.phase,
    {
        self.phase
    }

    pub fn direction(&self) -> (r: Direction)
        ensures
            r == self@.direction,
    {
        self.direction
    }

    pub fn limit(&self) -> (r: i64)
        ensures
            r == self@.limit,
    {
        self.limit
    }

    /// Takes one automatic step.
    pub fn tick(&mut self)
        ensures
            final(self)@ == old(self)@.tick(),
        no_unwind
    {
        proof {
            use_type_invariant(&*self);
        }
        let limit = self.limit;
        let d = if self.phase >= limit {
            Direction::Shrinking
        } else if self.phase <= 0 {
            Direction::Growing
        } else {
            self.direction
        };
        let p = match d {
            Direction::Growing => self.phase + 1,
            Direction::Shrinking => self.phase - 1,
        };
        let d2 = if p >= limit {
            Direction::Shrinking
        } else if p <= 0 {
            Direction::Growing
        } else {
            d
        };
        self.phase = p;
        self.direction = d2;
    }

    /// Takes one manual step, forward or back, in place of the automatic one.
    pub fn step_manual(&mut self, forward: bool)
        ensures
            final(self)@ == old(self)@.manual(forward),
        no_unwind
    {
        proof {
            use_type_invariant(&*self);
        }
        if forward {
            if self.phase < PHASE_MAX {
                self.phase = self.phase + 1;
            }
        } else {
            if self.phase > -PHASE_MAX {
                self.phase = self.phase - 1;
            }
        }
    }

    /// The offsets of the four rectangles, in tenths.
    pub fn offsets(&self) -> (r: [(i64, i64); 4])
        ensures
            forall|i: int| 0 <= i < 4 ==> (#[trigger] r@[i]).0 == self@.offset(i).0 && r@[i].1
                == self@.offset(i).1,
    {
        proof {
            use_type_invariant(self);
        }
        let p = self.phase;
        let s = STEP_TENTHS;
        let v: i64 = p * s;
        let w: i64 = -v;
        let r = [(0, v), (0, w), (v, 0), (w, 0)];
        assert(r@[0] == (0i64, v) && r@[1] == (0i64, w));
        assert(r@[2] == (v, 0i64) && r@[3] == (w, 0i64));
        r
    }
}

impl Default for OffsetAnimator {
    /// The animator of the canvas panel: at rest, growing, turning after
    /// `OFFSET_LIMIT_STEPS` steps.
    fn default() -> (r: OffsetAnimator)
        ensures
            r@ == (Oscillation {
                phase: 0,
                direction: Direction::Growing,
                limit: OFFSET_LIMIT_STEPS as int,
            }),
    {
        OffsetAnimator::new(OFFSET_LIMIT_STEPS)
    }
}

} // verus!
