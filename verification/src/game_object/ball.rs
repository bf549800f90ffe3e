//! The ball: a point mass with a fixed horizontal speed, drawn as a fan of
//! triangles around its centre.

use vstd::prelude::*;
use crate::circle::{circle_cos, circle_sin, fan_cos, fan_sin, law_unit_length, NUM_VERT};
use crate::fixed::{
    fits, in_range, lemma_fraction_bound, lemma_product_bound, lemma_trunc_div_bounds, moved, ndc,
    to_ndc, trunc_div, LIMIT, TRIG_ONE,
};
use crate::game_object::traits::{Draw, Step};

verus! {

/// Horizontal speed of the ball, six tenths of a pixel per millisecond. Only
/// its sign ever changes.
pub const SERVE_SPEED: i64 = 600;

/// What a paddle hit multiplies the contact offset by to give the vertical
/// velocity.
pub const BOUNCE_GAIN: i64 = 4;

/// Length of the ball's vertex buffer: two coordinates for the centre and for
/// each outline point.
pub const BALL_COORDS: usize = 66;

/// Length of the ball's index buffer: three indices for each triangle of the
/// fan.
pub const BALL_IDXS: usize = 96;

/// The ball.
pub struct Ball {
    radius: i64,
    x: i64,
    y: i64,
    velo_x: i64,
    velo_y: i64,
    vertices: [i64; 66],
    idxs: [u32; 96],
}

/// What a ball is, mathematically.
pub ghost struct BallModel {
    pub radius: int,
    pub x: int,
    pub y: int,
    pub velo_x: int,
    pub velo_y: int,
    /// Normalized device coordinates, x before y, the centre first.
    pub vertices: Seq<int>,
    /// Vertex numbers, three to a triangle.
    pub idxs: Seq<int>,
}

impl BallModel {
    /// Every quantity can be stored, the horizontal speed is the serve speed,
    /// and the buffers have their fixed lengths.
    pub open spec fn wf(self) -> bool {
        &&& in_range(self.radius)
        &&& in_range(self.x)
        &&& in_range(self.y)
        &&& (self.velo_x == SERVE_SPEED || self.velo_x == -SERVE_SPEED)
        &&& in_range(self.velo_y)
        &&& self.vertices.len() == BALL_COORDS
        &&& self.idxs.len() == BALL_IDXS
    }

    /// A ball served from `(x, y)`: it moves left and level, and nothing has
    /// been laid out yet.
    pub open spec fn served(x: int, y: int, radius: int) -> BallModel {
        BallModel {
            radius,
            x,
            y,
            velo_x: -SERVE_SPEED,
            velo_y: 0,
            vertices: Seq::new(BALL_COORDS as nat, |i: int| 0int),
            idxs: Seq::new(BALL_IDXS as nat, |i: int| 0int),
        }
    }

    /// The ball put back at `(x, y)` with the serve velocity.
    pub open spec fn reset(self, x: int, y: int) -> BallModel {
        BallModel { x, y, velo_x: -SERVE_SPEED, velo_y: 0, ..self }
    }

    /// The ball after it hit a paddle at the contact offset `dy`.
    pub open spec fn bounce(self, dy: int) -> BallModel {
        BallModel { velo_x: -self.velo_x, velo_y: dy * BOUNCE_GAIN, ..self }
    }

    /// The ball after it hit the top or bottom wall.
    pub open spec fn bounce_y(self) -> BallModel {
        BallModel { velo_y: -self.velo_y, ..self }
    }

    /// Horizontal direction: `1` when the ball moves right, `-1` when it moves
    /// left or not at all.
    pub open spec fn dir_x(self) -> int {
        if self.velo_x <= 0 {
            -1
        } else {
            1
        }
    }

    /// Vertical direction: `1` when the ball moves toward larger `y`, `-1` when
    /// it moves toward smaller `y` or not at all.
    pub open spec fn dir_y(self) -> int {
        if self.velo_y <= 0 {
            -1
        } else {
            1
        }
    }

    /// The ball `dt` milliseconds later.
    pub open spec fn step(self, dt: int) -> BallModel {
        BallModel { x: self.x + self.velo_x * dt, y: self.y + self.velo_y * dt, ..self }
    }

    /// Whether the ball can still be stored `dt` milliseconds later.
    pub open spec fn can_step(self, dt: int) -> bool {
        &&& in_range(self.x + self.velo_x * dt)
        &&& in_range(self.y + self.velo_y * dt)
    }

    /// Horizontal position of vertex `j`: the centre for `j == 0`, else the
    /// outline point in direction `j - 1`.
    pub open spec fn vertex_x(self, j: int) -> int {
        if j == 0 {
            self.x
        } else {
            self.x + trunc_div(self.radius * fan_cos(j - 1), TRIG_ONE as int)
        }
    }

    /// Vertical position of vertex `j`.
    pub open spec fn vertex_y(self, j: int) -> int {
        if j == 0 {
            self.y
        } else {
            self.y + trunc_div(self.radius * fan_sin(j - 1), TRIG_ONE as int)
        }
    }

    /// Entry `i` of the vertex buffer for an arena of the given size.
    pub open spec fn coord(self, i: int, win_width: int, win_height: int) -> int {
        if i % 2 == 0 {
            ndc(self.vertex_x(i / 2), win_width)
        } else {
            ndc(self.vertex_y(i / 2), win_height)
        }
    }

    /// The vertex buffer for an arena of the given size.
    pub open spec fn outline(self, win_width: int, win_height: int) -> Seq<int> {
        Seq::new(BALL_COORDS as nat, |i: int| self.coord(i, win_width, win_height))
    }

    /// Entry `i` of the index buffer. Triangle `t` joins the centre, outline
    /// point `t` and the outline point after it; the last triangle closes the
    /// fan on outline point 0.
    pub open spec fn fan_index(i: int) -> int {
        let t: int = i / 3;
        if i % 3 == 0 {
            0
        } else if i % 3 == 1 {
            1 + t
        } else {
            1 + (t + 1) % (NUM_VERT as int)
        }
    }

    /// The index buffer.
    pub open spec fn fan() -> Seq<int> {
        Seq::new(BALL_IDXS as nat, |i: int| Self::fan_index(i))
    }

    /// The ball with its vertex buffer laid out.
    pub open spec fn drawn(self, win_width: int, win_height: int) -> BallModel {
        BallModel { vertices: self.outline(win_width, win_height), ..self }
    }

    /// The ball with both buffers laid out.
    pub open spec fn prepared(self, win_width: int, win_height: int) -> BallModel {
        BallModel { idxs: Self::fan(), ..self.drawn(win_width, win_height) }
    }
}

/// Reflecting off a wall twice gives back the ball as it was.
pub proof fn law_bounce_y_twice(b: BallModel)
    ensures
        b.bounce_y().bounce_y() == b,
{
}

/// A paddle hit overwrites the vertical velocity: after any number of earlier
/// hits it is `BOUNCE_GAIN` times the latest contact offset, and two hits give
/// back the horizontal velocity.
pub proof fn law_bounce_overwrites(b: BallModel, first: int, second: int)
    ensures
        b.bounce(second).velo_y == BOUNCE_GAIN * second,
        b.bounce(first).bounce(second).velo_y == b.bounce(second).velo_y,
        b.bounce(second).velo_x == -b.velo_x,
        b.bounce(first).bounce(second).velo_x == b.velo_x,
{
}

/// A reset forgets the velocity: whatever two balls did before, after a reset
/// to the same place both move alike, leftward at the serve speed.
pub proof fn law_reset_serves(a: BallModel, b: BallModel, x: int, y: int)
    ensures
        a.reset(x, y).velo_x == -SERVE_SPEED,
        a.reset(x, y).velo_y == 0,
        a.reset(x, y).dir_x() == -1,
        a.reset(x, y).velo_x == b.reset(x, y).velo_x,
        a.reset(x, y).velo_y == b.reset(x, y).velo_y,
{
}

/// Motion is linear in time: two steps in a row are one step over the sum of
/// their durations, and a step leaves the velocity alone.
pub proof fn law_ball_steps_add(b: BallModel, first: int, second: int)
    ensures
        b.step(first).step(second) == b.step(first + second),
        b.step(first).velo_x == b.velo_x,
        b.step(first).velo_y == b.velo_y,
        b.step(0) == b,
{
    assert(b.velo_x * (first + second) == b.velo_x * first + b.velo_x * second)
        by (nonlinear_arith);
    assert(b.velo_y * (first + second) == b.velo_y * first + b.velo_y * second)
        by (nonlinear_arith);
}

/// The direction is never zero: a ball at rest on an axis counts as moving
/// toward smaller coordinates.
pub proof fn law_ball_direction(b: BallModel)
    ensures
        b.dir_x() == 1 <==> b.velo_x > 0,
        b.dir_x() == -1 <==> b.velo_x <= 0,
        b.dir_y() == 1 <==> b.velo_y > 0,
        b.dir_y() == -1 <==> b.velo_y <= 0,
{
}

/// The vertex buffer is a function of position, radius and arena size alone:
/// balls that agree on these are laid out alike, whatever their velocities and
/// whatever their buffers held; and laying out twice is laying out once.
pub proof fn law_ball_layout(a: BallModel, b: BallModel, win_width: int, win_height: int)
    requires
        a.x == b.x,
        a.y == b.y,
        a.radius == b.radius,
    ensures
        a.drawn(win_width, win_height).vertices == b.drawn(win_width, win_height).vertices,
        a.drawn(win_width, win_height).drawn(win_width, win_height) == a.drawn(
            win_width,
            win_height,
        ),
{
    assert(a.drawn(win_width, win_height).outline(win_width, win_height) =~= a.outline(
        win_width,
        win_height,
    ));
}

/// The index buffer names existing vertices only, and triangle `t` joins the
/// centre to outline point `t` and the outline point after it.
pub proof fn law_fan_closes(t: int)
    requires
        0 <= t < NUM_VERT,
    ensures
        BallModel::fan()[3 * t] == 0,
        BallModel::fan()[3 * t + 1] == 1 + t,
        BallModel::fan()[3 * t + 2] == if t == NUM_VERT - 1 {
            1
        } else {
            2 + t
        },
        forall|i: int| 0 <= i < BALL_IDXS ==> 0 <= #[trigger] BallModel::fan()[i] <= NUM_VERT,
{
}

/// The square of the truncated quotient of `a` by a positive `t`, scaled back
/// up, brackets the square of `a`.
proof fn lemma_quotient_square(a: int, t: int)
    requires
        t > 0,
    ensures
        ({
            let q = trunc_div(a, t);
            let m = if q >= 0 {
                q
            } else {
                -q
            };
            &&& q * q * (t * t) <= a * a
            &&& a * a < (m + 1) * (m + 1) * (t * t)
        }),
{
    let n: int = if a >= 0 {
        a
    } else {
        -a
    };
    let m: int = n / t;
    lemma_trunc_div_bounds(a, t);
    assert(m * t <= n < (m + 1) * t && m >= 0) by (nonlinear_arith)
        requires
            n >= 0,
            t > 0,
            m == n / t,
    ;
    assert(m * m * (t * t) <= n * n && n * n < (m + 1) * (m + 1) * (t * t)) by (nonlinear_arith)
        requires
            0 <= m * t <= n,
            n < (m + 1) * t,
            m >= 0,
            t > 0,
    ;
    assert(n * n == a * a) by (nonlinear_arith)
        requires
            n == a || n == -a,
    ;
    assert(trunc_div(a, t) * trunc_div(a, t) == m * m) by (nonlinear_arith)
        requires
            trunc_div(a, t) == m || trunc_div(a, t) == -m,
    ;
}

/// The outline lies on the circle around the centre, up to rounding. With
/// `dx` and `dy` the offsets of outline point `k` from the centre, and `T` for
/// `TRIG_ONE`: the squared distance `dx * dx + dy * dy` is at most the squared
/// radius times `1 + 2 / T`, and moving the point outward by one unit on each
/// axis takes it to at least the squared radius times `1 - 2 / T`.
pub proof fn law_outline_on_circle(b: BallModel, k: int)
    requires
        0 <= k < NUM_VERT,
    ensures
        ({
            let dx = b.vertex_x(k + 1) - b.x;
            let dy = b.vertex_y(k + 1) - b.y;
            let ax = if dx >= 0 {
                dx
            } else {
                -dx
            };
            let ay = if dy >= 0 {
                dy
            } else {
                -dy
            };
            let t = TRIG_ONE as int;
            &&& (dx * dx + dy * dy) * (t * t) <= b.radius * b.radius * (t * t + 2 * t)
            &&& ((ax + 1) * (ax + 1) + (ay + 1) * (ay + 1)) * (t * t) >= b.radius * b.radius * (t
                * t - 2 * t)
        }),
{
    let r: int = b.radius;
    let c: int = fan_cos(k);
    let s: int = fan_sin(k);
    let t: int = TRIG_ONE as int;
    let dx: int = trunc_div(r * c, t);
    let dy: int = trunc_div(r * s, t);
    let ax: int = if dx >= 0 {
        dx
    } else {
        -dx
    };
    let ay: int = if dy >= 0 {
        dy
    } else {
        -dy
    };
    law_unit_length(k);
    lemma_quotient_square(r * c, t);
    lemma_quotient_square(r * s, t);
    let u: int = c * c + s * s;
    assert((r * c) * (r * c) + (r * s) * (r * s) == r * r * u) by (nonlinear_arith)
        requires
            u == c * c + s * s,
    ;
    assert(r * r * u <= r * r * (t * t + 2 * t) && r * r * u >= r * r * (t * t - 2 * t))
        by (nonlinear_arith)
        requires
            t * t - 2 * t <= u <= t * t + 2 * t,
    ;
    assert((dx * dx + dy * dy) * (t * t) == dx * dx * (t * t) + dy * dy * (t * t))
        by (nonlinear_arith);
    assert(((ax + 1) * (ax + 1) + (ay + 1) * (ay + 1)) * (t * t) == (ax + 1) * (ax + 1) * (t * t)
        + (ay + 1) * (ay + 1) * (t * t)) by (nonlinear_arith);
}

impl View for Ball {
    type V = BallModel;

    closed spec fn view(&self) -> BallModel {
        BallModel {
            radius: self.radius as int,
            x: self.x as int,
            y: self.y as int,
            velo_x: self.velo_x as int,
            velo_y: self.velo_y as int,
            vertices: Seq::new(BALL_COORDS as nat, |i: int| self.vertices[i] as int),
            idxs: Seq::new(BALL_IDXS as nat, |i: int| self.idxs[i] as int),
        }
    }
}

/// How far an outline point lies from the centre along one axis, for the unit
/// component `unit` of its direction.
fn rim_offset(radius: i64, unit: i64) -> (d: i64)
    requires
        in_range(radius as int),
        -TRIG_ONE <= unit <= TRIG_ONE,
    ensures
        d == trunc_div(radius * unit, TRIG_ONE as int),
        in_range(d as int),
{
    proof {
        lemma_product_bound(radius as int, unit as int, LIMIT as int, TRIG_ONE as int);
        lemma_fraction_bound(radius as int, unit as int, TRIG_ONE as int);
    }
    radius * unit / TRIG_ONE
}

impl Ball {
    /// A ball of the given radius, served from `(x, y)`.
    pub fn new(x: i64, y: i64, radius: i64) -> (ball: Ball)
        requires
            in_range(x as int),
            in_range(y as int),
            in_range(radius as int),
        ensures
            ball@ == BallModel::served(x as int, y as int, radius as int),
            ball@.wf(),
    {
        let ball = Ball {
            radius,
            x,
            y,
            velo_x: -SERVE_SPEED,
            velo_y: 0,
            vertices: [0; 66],
            idxs: [0; 96],
        };
        assert(ball@.vertices =~= Seq::new(BALL_COORDS as nat, |i: int| 0int));
        assert(ball@.idxs =~= Seq::new(BALL_IDXS as nat, |i: int| 0int));
        ball
    }

    /// Recomputes the vertex buffer from the ball's position and radius.
    fn update_vertices(&mut self, win_width: i64, win_height: i64)
        requires
            old(self)@.wf(),
            win_width > 0,
            win_height > 0,
        ensures
            final(self)@ == old(self)@.drawn(win_width as int, win_height as int),
    {
        self.vertices[0] = to_ndc(self.x, win_width);
        self.vertices[1] = to_ndc(self.y, win_height);
        let mut k: usize = 0;
        while k < NUM_VERT
            invariant
                0 <= k <= NUM_VERT,
                win_width > 0,
                win_height > 0,
                old(self)@.wf(),
                self.radius == old(self).radius,
                self.x == old(self).x,
                self.y == old(self).y,
                self.velo_x == old(self).velo_x,
                self.velo_y == old(self).velo_y,
                self.idxs == old(self).idxs,
                forall|i: int|
                    0 <= i < 2 + 2 * k ==> self.vertices[i] as int == old(self)@.coord(
                        i,
                        win_width as int,
                        win_height as int,
                    ),
            decreases NUM_VERT - k,
        {
            let px: i64 = self.x + rim_offset(self.radius, circle_cos(k));
            let py: i64 = self.y + rim_offset(self.radius, circle_sin(k));
            self.vertices[2 + 2 * k] = to_ndc(px, win_width);
            self.vertices[3 + 2 * k] = to_ndc(py, win_height);
            k += 1;
        }
        assert(self@.vertices =~= old(self)@.outline(win_width as int, win_height as int));
    }

    /// Puts the ball at `(x, y)` and serves it: leftward at the serve speed,
    /// with no vertical motion, whatever its velocity was.
    pub fn reset(&mut self, x: i64, y: i64)
        requires
            old(self)@.wf(),
            in_range(x as int),
            in_range(y as int),
        ensures
            final(self)@ == old(self)@.reset(x as int, y as int),
            final(self)@.wf(),
    {
        self.x = x;
        self.y = y;
        self.velo_x = -SERVE_SPEED;
        self.velo_y = 0;
    }

    /// Horizontal position of the centre.
    pub fn get_x(&self) -> (x: i64)
        ensures
            x == self@.x,
    {
        self.x
    }

    /// Vertical position of the centre.
    pub fn get_y(&self) -> (y: i64)
        ensures
            y == self@.y,
    {
        self.y
    }

    /// Horizontal velocity.
    pub fn get_velo_x(&self) -> (v: i64)
        ensures
            v == self@.velo_x,
    {
        self.velo_x
    }

    /// Vertical velocity.
    pub fn get_velo_y(&self) -> (v: i64)
        ensures
            v == self@.velo_y,
    {
        self.velo_y
    }

    /// Radius.
    pub fn get_radius(&self) -> (r: i64)
        ensures
            r == self@.radius,
    {
        self.radius
    }

    /// Reflects the ball off a paddle: the horizontal velocity changes sign,
    /// and the vertical velocity becomes `BOUNCE_GAIN` times the contact offset
    /// `dy`, whatever it was.
    pub fn bounce(&mut self, dy: i64)
        requires
            old(self)@.wf(),
            in_range(dy * BOUNCE_GAIN),
        ensures
            final(self)@ == old(self)@.bounce(dy as int),
            final(self)@.wf(),
    {
        self.velo_x = -self.velo_x;
        self.velo_y = dy * BOUNCE_GAIN;
    }

    /// Reflects the ball off the top or bottom wall: the vertical velocity
    /// changes sign.
    pub fn bounce_y(&mut self)
        requires
            old(self)@.wf(),
        ensures
            final(self)@ == old(self)@.bounce_y(),
            final(self)@.wf(),
    {
        self.velo_y = -self.velo_y;
    }

    /// Horizontal direction: `-1` when the horizontal velocity is zero or
    /// negative, `1` when it is positive.
    pub fn get_dir(&self) -> (d: i8)
        ensures
            d == self@.dir_x(),
    {
        if self.velo_x <= 0 {
            -1
        } else {
            1
        }
    }

    /// Vertical direction: `-1` when the vertical velocity is zero or negative,
    /// `1` when it is positive.
    pub fn get_y_dir(&self) -> (d: i8)
        ensures
            d == self@.dir_y(),
    {
        if self.velo_y <= 0 {
            -1
        } else {
            1
        }
    }

    /// The vertex buffer.
    pub fn vertices(&self) -> (v: &[i64; 66])
        ensures
            forall|i: int| 0 <= i < BALL_COORDS ==> v[i] == self@.vertices[i],
    {
        &self.vertices
    }

    /// The index buffer.
    pub fn idxs(&self) -> (v: &[u32; 96])
        ensures
            forall|i: int| 0 <= i < BALL_IDXS ==> v[i] == self@.idxs[i],
    {
        &self.idxs
    }
}

impl Step for Ball {
    open spec fn can_step(&self, dt: i64) -> bool {
        self@.wf() && self@.can_step(dt as int)
    }

    open spec fn stepped(v: BallModel, dt: i64) -> BallModel {
        v.step(dt as int)
    }

    fn check_step(&self, dt: i64) -> (ok: bool) {
        fits(self.radius as i128) && fits(self.x as i128) && fits(self.y as i128) && (self.velo_x
            == SERVE_SPEED || self.velo_x == -SERVE_SPEED) && fits(self.velo_y as i128) && fits(
            moved(self.x, self.velo_x, dt),
        ) && fits(moved(self.y, self.velo_y, dt))
    }

    /// `position' = position + velocity * dt` on both axes; the velocity stays.
    fn step(&mut self, dt: i64)
        ensures
            final(self)@.wf(),
    {
        let nx: i128 = moved(self.x, self.velo_x, dt);
        let ny: i128 = moved(self.y, self.velo_y, dt);
        self.x = nx as i64;
        self.y = ny as i64;
    }
}

impl Draw for Ball {
    open spec fn can_draw(&self, win_width: i64, win_height: i64) -> bool {
        self@.wf() && win_width > 0 && win_height > 0
    }

    open spec fn drawn(v: BallModel, win_width: i64, win_height: i64) -> BallModel {
        v.drawn(win_width as int, win_height as int)
    }

    open spec fn prepared(v: BallModel, win_width: i64, win_height: i64) -> BallModel {
        v.prepared(win_width as int, win_height as int)
    }

    fn init_gl(&mut self, win_width: i64, win_height: i64)
        ensures
            final(self)@.wf(),
    {
        self.update_vertices(win_width, win_height);
        let ghost laid = self@;
        let mut t: usize = 0;
        while t < NUM_VERT - 1
            invariant
                0 <= t <= NUM_VERT - 1,
                self.radius == laid.radius,
                self.x == laid.x,
                self.y == laid.y,
                self.velo_x == laid.velo_x,
                self.velo_y == laid.velo_y,
                self@.vertices == laid.vertices,
                forall|i: int| 0 <= i < 3 * t ==> self.idxs[i] as int == BallModel::fan_index(i),
            decreases NUM_VERT - 1 - t,
        {
            self.idxs[3 * t] = 0;
            self.idxs[3 * t + 1] = (t + 1) as u32;
            self.idxs[3 * t + 2] = (t + 2) as u32;
            t += 1;
        }
        self.idxs[BALL_IDXS - 3] = 0;
        self.idxs[BALL_IDXS - 2] = NUM_VERT as u32;
        self.idxs[BALL_IDXS - 1] = 1;
        assert(self@.idxs =~= BallModel::fan());
    }

    fn draw(&mut self, win_width: i64, win_height: i64)
        ensures
            final(self)@.wf(),
    {
        self.update_vertices(win_width, win_height);
    }
}

} // verus!
