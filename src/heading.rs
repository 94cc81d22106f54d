use vstd::prelude::*;
use crate::config::{BALL_SPEED, MAX_SLOPE};

verus! {

/// Largest `c` in `0..=limit` with `c * c * den <= num`.
pub open spec fn scaled_isqrt(limit: nat, num: int, den: int) -> nat
    decreases limit,
{
    if limit == 0 || limit * limit * den <= num {
        limit
    } else {
        scaled_isqrt((limit - 1) as nat, num, den)
    }
}

proof fn lemma_scaled_isqrt_fits(limit: nat, num: int, den: int)
    ensures
        scaled_isqrt(limit, num, den) <= limit,
        scaled_isqrt(limit, num, den) == 0 || scaled_isqrt(limit, num, den) * scaled_isqrt(
            limit,
            num,
            den,
        ) * den <= num,
    decreases limit,
{
    if limit > 0 && limit * limit * den > num {
        lemma_scaled_isqrt_fits((limit - 1) as nat, num, den);
    }
}

/// Horizontal travel per frame along a heading of slope `k`:
/// `BALL_SPEED * cos(atan k)`, truncated.
pub open spec fn run_of(k: int) -> nat {
    scaled_isqrt(BALL_SPEED as nat, BALL_SPEED * BALL_SPEED, 1 + k * k)
}

/// Vertical travel per frame along a heading of slope `k`, without sign:
/// `BALL_SPEED * |sin(atan k)|`, truncated.
pub open spec fn rise_of(k: int) -> nat {
    scaled_isqrt(BALL_SPEED as nat, BALL_SPEED * BALL_SPEED * (k * k), 1 + k * k)
}

/// The direction the ball travels in. With `rightward` it stands for the
/// angle `atan(slope)`, otherwise for `pi - atan(slope)`; a positive slope
/// points down the screen.
#[derive(Clone, Copy, Debug, PartialEq, Eq, Structural)]
pub struct Heading {
    pub rightward: bool,
    pub slope: i32,
}

impl Heading {
    pub open spec fn wf(self) -> bool {
        -MAX_SLOPE <= self.slope <= MAX_SLOPE
    }

    /// Horizontal travel per frame.
    pub open spec fn dx(self) -> int {
        if self.rightward {
            run_of(self.slope as int) as int
        } else {
            -(run_of(self.slope as int) as int)
        }
    }

    /// Vertical travel per frame.
    pub open spec fn dy(self) -> int {
        if self.slope < 0 {
            -(rise_of(self.slope as int) as int)
        } else {
            rise_of(self.slope as int) as int
        }
    }

    /// A frame moves the ball by at most its speed each way, and by less than
    /// it vertically; the vertical sense follows the slope's sign.
    pub proof fn lemma_velocity_bounds(self)
        ensures
            -BALL_SPEED <= self.dx() <= BALL_SPEED,
            -BALL_SPEED < self.dy() < BALL_SPEED,
            self.slope <= 0 ==> self.dy() <= 0,
            self.slope >= 0 ==> self.dy() >= 0,
            self.slope == 0 ==> self.dy() == 0,
            self.slope == 0 && self.rightward ==> self.dx() == BALL_SPEED,
            self.slope == 0 && !self.rightward ==> self.dx() == -BALL_SPEED,
    {
        let k = self.slope as int;
        let s = BALL_SPEED as int;
        lemma_scaled_isqrt_fits(s as nat, s * s, 1 + k * k);
        lemma_scaled_isqrt_fits(s as nat, s * s * (k * k), 1 + k * k);
        let r = rise_of(k) as int;
        assert(r != s) by {
            if r == s {
                assert(s * s * (1 + k * k) > s * s * (k * k)) by (nonlinear_arith)
                    requires s == BALL_SPEED;
            }
        }
        if k == 0 {
            assert(k * k == 0 && s * s * (k * k) == 0) by (nonlinear_arith)
                requires k == 0;
            assert(r == 0) by (nonlinear_arith)
                requires r == 0 || r * r * 1 <= 0, r >= 0;
            reveal_with_fuel(scaled_isqrt, 2);
        }
    }

    /// Mirroring by a wall keeps the horizontal travel and reverses the vertical one.
    pub proof fn lemma_mirrored_velocity(self)
        requires
            self.wf(),
        ensures
            (Heading { rightward: self.rightward, slope: (-self.slope) as i32 }).dx() == self.dx(),
            (Heading { rightward: self.rightward, slope: (-self.slope) as i32 }).dy() == -self.dy(),
    {
        let k = self.slope as int;
        assert((-k) * (-k) == k * k) by (nonlinear_arith);
        self.lemma_velocity_bounds();
    }

    /// Straight to the right (angle 0).
    pub fn right() -> (r: Heading)
        ensures
            r.rightward,
            r.slope == 0,
    {
        Heading { rightward: true, slope: 0 }
    }

    /// Straight to the left (angle pi).
    pub fn left() -> (r: Heading)
        ensures
            !r.rightward,
            r.slope == 0,
    {
        Heading { rightward: false, slope: 0 }
    }

    /// The heading mirrored by a horizontal wall: the angle negated.
    pub fn bounced(self) -> (r: Heading)
        requires
            self.wf(),
        ensures
            r.rightward == self.rightward,
            r.slope == -self.slope,
            r.wf(),
    {
        Heading { rightward: self.rightward, slope: -self.slope }
    }

    /// Travel per frame along this heading, as `(dx, dy)`.
    pub fn velocity(self) -> (r: (i32, i32))
        requires
            self.wf(),
        ensures
            r.0 == self.dx(),
            r.1 == self.dy(),
    {
        let k: i32 = if self.slope < 0 { -self.slope } else { self.slope };
        proof {
            assert(0 <= k * k <= MAX_SLOPE * MAX_SLOPE) by (nonlinear_arith)
                requires 0 <= k <= MAX_SLOPE;
        }
        let kk: u32 = (k * k) as u32;
        let speed2: u32 = (BALL_SPEED * BALL_SPEED) as u32;
        let run = scaled_sqrt(BALL_SPEED as u32, speed2, 1 + kk);
        let rise = scaled_sqrt(BALL_SPEED as u32, speed2 * kk, 1 + kk);
        proof {
            assert(k * k == self.slope * self.slope) by (nonlinear_arith)
                requires k == self.slope || k == -self.slope;
        }
        let dx: i32 = if self.rightward { run as i32 } else { -(run as i32) };
        let dy: i32 = if self.slope < 0 { -(rise as i32) } else { rise as i32 };
        (dx, dy)
    }
}

/// Largest `c` in `0..=limit` with `c * c * den <= num`.
fn scaled_sqrt(limit: u32, num: u32, den: u32) -> (r: u32)
    requires
        limit <= BALL_SPEED,
        1 <= den <= 1 + MAX_SLOPE * MAX_SLOPE,
    ensures
        r == scaled_isqrt(limit as nat, num as int, den as int),
        r <= limit,
{
    let mut c: u32 = limit;
    loop
        invariant
            c <= limit <= BALL_SPEED,
            1 <= den <= 1 + MAX_SLOPE * MAX_SLOPE,
            scaled_isqrt(c as nat, num as int, den as int)
                == scaled_isqrt(limit as nat, num as int, den as int),
        decreases c,
    {
        if c == 0 {
            return c;
        }
        proof {
            assert(c * c <= BALL_SPEED * BALL_SPEED) by (nonlinear_arith)
                requires c <= BALL_SPEED;
        }
        let cc: u32 = c * c;
        proof {
            assert(cc * den <= BALL_SPEED * BALL_SPEED * (1 + MAX_SLOPE * MAX_SLOPE))
                by (nonlinear_arith)
                requires cc <= BALL_SPEED * BALL_SPEED, 1 <= den <= 1 + MAX_SLOPE * MAX_SLOPE;
        }
        if cc * den <= num {
            return c;
        }
        c = c - 1;
    }
}

} // verus!
