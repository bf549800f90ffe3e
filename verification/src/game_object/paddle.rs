//! A paddle: an upright rectangle that moves along the vertical axis at a
//! fixed speed, in the direction it was last told.

use vstd::prelude::*;
use crate::fixed::{fits, in_range, moved, ndc, to_ndc, trunc_div};
use crate::game_object::traits::{Draw, Step};

verus! {

/// Speed of a paddle, four tenths of a pixel per millisecond.
pub const PADDLE_SPEED: i64 = 400;

/// Length of a paddle's vertex buffer: two coordinates for each corner.
pub const PADDLE_COORDS: usize = 8;

/// Length of a paddle's index buffer: two triangles.
pub const PADDLE_IDXS: usize = 6;

/// A paddle. `(x, y)` is its centre.
pub struct Paddle {
    x: i64,
    y: i64,
    width: i64,
    height: i64,
    dir: i8,
    vertices: [i64; 8],
    idxs: [u32; 6],
}

/// What a paddle is, mathematically.
pub ghost struct PaddleModel {
    pub x: int,
    pub y: int,
    pub width: int,
    pub height: int,
    /// Intended vertical motion: `1`, `-1`, or `0` for rest.
    pub dir: int,
    /// Normalized device coordinates, x before y, corner by corner.
    pub vertices: Seq<int>,
    /// Vertex numbers, three to a triangle.
    pub idxs: Seq<int>,
}

impl PaddleModel {
    /// Every quantity can be stored and the buffers have their fixed lengths.
    pub open spec fn wf(self) -> bool {
        &&& in_range(self.x)
        &&& in_range(self.y)
        &&& in_range(self.width)
        &&& in_range(self.height)
        &&& i8::MIN <= self.dir <= i8::MAX
        &&& self.vertices.len() == PADDLE_COORDS
        &&& self.idxs.len() == PADDLE_IDXS
    }

    /// A paddle at rest, centred on `(x, y)`, with nothing laid out yet.
    pub open spec fn placed(x: int, y: int, width: int, height: int) -> PaddleModel {
        PaddleModel {
            x,
            y,
            width,
            height,
            dir: 0,
            vertices: Seq::new(PADDLE_COORDS as nat, |i: int| 0int),
            idxs: Seq::new(PADDLE_IDXS as nat, |i: int| 0int),
        }
    }

    /// The paddle told to move in direction `dir`.
    pub open spec fn set_dir(self, dir: int) -> PaddleModel {
        PaddleModel { dir, ..self }
    }

    /// The paddle `dt` milliseconds later.
    pub open spec fn step(self, dt: int) -> PaddleModel {
        PaddleModel { y: self.y + self.dir * PADDLE_SPEED * dt, ..self }
    }

    /// Whether the paddle can still be stored `dt` milliseconds later.
    pub open spec fn can_step(self, dt: int) -> bool {
        in_range(self.y + self.dir * PADDLE_SPEED * dt)
    }

    /// Horizontal position of corner `j`. Corners 0 and 3 are on the side of
    /// larger `x`.
    pub open spec fn corner_x(self, j: int) -> int {
        if j == 0 || j == 3 {
            self.x + trunc_div(self.width, 2)
        } else {
            self.x - trunc_div(self.width, 2)
        }
    }

    /// Vertical position of corner `j`. Corners 0 and 1 are on the side of
    /// smaller `y`.
    pub open spec fn corner_y(self, j: int) -> int {
        if j == 0 || j == 1 {
            self.y - trunc_div(self.height, 2)
        } else {
            self.y + trunc_div(self.height, 2)
        }
    }

    /// Entry `i` of the vertex buffer for an arena of the given size.
    pub open spec fn coord(self, i: int, win_width: int, win_height: int) -> int {
        if i % 2 == 0 {
            ndc(self.corner_x(i / 2), win_width)
        } else {
            ndc(self.corner_y(i / 2), win_height)
        }
    }

    /// The vertex buffer for an arena of the given size.
    pub open spec fn outline(self, win_width: int, win_height: int) -> Seq<int> {
        Seq::new(PADDLE_COORDS as nat, |i: int| self.coord(i, win_width, win_height))
    }

    /// The index buffer: corners 0, 1, 2 and corners 0, 2, 3.
    pub open spec fn quad() -> Seq<int> {
        seq![0int, 1, 2, 0, 2, 3]
    }

    /// The paddle with its vertex buffer laid out.
    pub open spec fn drawn(self, win_width: int, win_height: int) -> PaddleModel {
        PaddleModel { vertices: self.outline(win_width, win_height), ..self }
    }

    /// The paddle with both buffers laid out.
    pub open spec fn prepared(self, win_width: int, win_height: int) -> PaddleModel {
        PaddleModel { idxs: Self::quad(), ..self.drawn(win_width, win_height) }
    }
}

/// Motion is linear in time: two steps in a row are one step over the sum of
/// their durations, and a step changes nothing but `y`.
pub proof fn law_paddle_steps_add(p: PaddleModel, first: int, second: int)
    ensures
        p.step(first).step(second) == p.step(first + second),
        p.step(first) == (PaddleModel { y: p.step(first).y, ..p }),
        p.step(0) == p,
{
    assert(p.dir * PADDLE_SPEED * (first + second) == p.dir * PADDLE_SPEED * first + p.dir
        * PADDLE_SPEED * second) by (nonlinear_arith);
}

/// The vertex buffer is a function of position, size and arena size alone:
/// paddles that agree on these are laid out alike, whatever their directions
/// and whatever their buffers held; and laying out twice is laying out once.
pub proof fn law_paddle_layout(a: PaddleModel, b: PaddleModel, win_width: int, win_height: int)
    requires
        a.x == b.x,
        a.y == b.y,
        a.width == b.width,
        a.height == b.height,
    ensures
        a.drawn(win_width, win_height).vertices == b.drawn(win_width, win_height).vertices,
        a.drawn(win_width, win_height).drawn(win_width, win_height) == a.drawn(
            win_width,
            win_height,
        ),
{
    assert(a.drawn(win_width, win_height).outline(win_width, win_height) =~= a.outline(
        win_width,
        win_height,
    ));
}

impl View for Paddle {
    type V = PaddleModel;

    closed spec fn view(&self) -> PaddleModel {
        PaddleModel {
            x: self.x as int,
            y: self.y as int,
            width: self.width as int,
            height: self.height as int,
            dir: self.dir as int,
            vertices: Seq::new(PADDLE_COORDS as nat, |i: int| self.vertices[i] as int),
            idxs: Seq::new(PADDLE_IDXS as nat, |i: int| self.idxs[i] as int),
        }
    }
}

impl Paddle {
    /// A paddle of the given size at rest, centred on `(x, y)`.
    pub fn new(x: i64, y: i64, width: i64, height: i64) -> (paddle: Paddle)
        requires
            in_range(x as int),
            in_range(y as int),
            in_range(width as int),
            in_range(height as int),
        ensures
            paddle@ == PaddleModel::placed(x as int, y as int, width as int, height as int),
            paddle@.wf(),
    {
        let paddle = Paddle { x, y, width, height, dir: 0, vertices: [0; 8], idxs: [0; 6] };
        assert(paddle@.vertices =~= Seq::new(PADDLE_COORDS as nat, |i: int| 0int));
        assert(paddle@.idxs =~= Seq::new(PADDLE_IDXS as nat, |i: int| 0int));
        paddle
    }

    /// Recomputes the vertex buffer from the paddle's position and size.
    fn update_vertices(&mut self, win_width: i64, win_height: i64)
        requires
            old(self)@.wf(),
            win_width > 0,
            win_height > 0,
        ensures
            final(self)@ == old(self)@.drawn(win_width as int, win_height as int),
    {
        self.vertices[0] = to_ndc(self.x + self.width / 2, win_width);
        self.vertices[1] = to_ndc(self.y - self.height / 2, win_height);

        self.vertices[2] = to_ndc(self.x - self.width / 2, win_width);
        self.vertices[3] = to_ndc(self.y - self.height / 2, win_height);

        self.vertices[4] = to_ndc(self.x - self.width / 2, win_width);
        self.vertices[5] = to_ndc(self.y + self.height / 2, win_height);

        self.vertices[6] = to_ndc(self.x + self.width / 2, win_width);
        self.vertices[7] = to_ndc(self.y + self.height / 2, win_height);
        assert(self@.vertices =~= old(self)@.outline(win_width as int, win_height as int));
    }

    /// Tells the paddle which way to move from now on.
    pub fn set_dir(&mut self, dir: i8)
        requires
            old(self)@.wf(),
        ensures
            final(self)@ == old(self)@.set_dir(dir as int),
            final(self)@.wf(),
    {
        self.dir = dir;
    }

    /// The direction the paddle was last told to move in.
    pub fn get_dir(&self) -> (dir: i8)
        ensures
            dir == self@.dir,
    {
        self.dir
    }

    /// Horizontal position of the centre.
    pub fn get_x(&self) -> (x: i64)
        ensures
            x == self@.x,
    {
        self.x
    }

    /// Vertical position of the centre.
    pub fn get_y(&self) -> (y: i64)
        ensures
            y == self@.y,
    {
        self.y
    }

    /// Width.
    pub fn get_width(&self) -> (width: i64)
        ensures
            width == self@.width,
    {
        self.width
    }

    /// Height.
    pub fn get_height(&self) -> (height: i64)
        ensures
            height == self@.height,
    {
        self.height
    }

    /// The vertex buffer.
    pub fn vertices(&self) -> (v: &[i64; 8])
        ensures
            forall|i: int| 0 <= i < PADDLE_COORDS ==> v[i] == self@.vertices[i],
    {
        &self.vertices
    }

    /// The index buffer.
    pub fn idxs(&self) -> (v: &[u32; 6])
        ensures
            forall|i: int| 0 <= i < PADDLE_IDXS ==> v[i] == self@.idxs[i],
    {
        &self.idxs
    }
}

impl Step for Paddle {
    open spec fn can_step(&self, dt: i64) -> bool {
        self@.wf() && self@.can_step(dt as int)
    }

    open spec fn stepped(v: PaddleModel, dt: i64) -> PaddleModel {
        v.step(dt as int)
    }

    fn check_step(&self, dt: i64) -> (ok: bool) {
        fits(self.x as i128) && fits(self.y as i128) && fits(self.width as i128) && fits(
            self.height as i128,
        ) && fits(moved(self.y, self.dir as i64 * PADDLE_SPEED, dt))
    }

    /// `y' = y + dir * PADDLE_SPEED * dt`; nothing else changes.
    fn step(&mut self, dt: i64)
        ensures
            final(self)@.wf(),
    {
        let ny: i128 = moved(self.y, self.dir as i64 * PADDLE_SPEED, dt);
        self.y = ny as i64;
    }
}

impl Draw for Paddle {
    open spec fn can_draw(&self, win_width: i64, win_height: i64) -> bool {
        self@.wf() && win_width > 0 && win_height > 0
    }

    open spec fn drawn(v: PaddleModel, win_width: i64, win_height: i64) -> PaddleModel {
        v.drawn(win_width as int, win_height as int)
    }

    open spec fn prepared(v: PaddleModel, win_width: i64, win_height: i64) -> PaddleModel {
        v.prepared(win_width as int, win_height as int)
    }

    fn init_gl(&mut self, win_width: i64, win_height: i64)
        ensures
            final(self)@.wf(),
    {
        self.update_vertices(win_width, win_height);
        self.idxs[0] = 0;
        self.idxs[1] = 1;
        self.idxs[2] = 2;
        self.idxs[3] = 0;
        self.idxs[4] = 2;
        self.idxs[5] = 3;
        assert(self@.idxs =~= PaddleModel::quad());
    }

    fn draw(&mut self, win_width: i64, win_height: i64)
        ensures
            final(self)@.wf(),
    {
        self.update_vertices(win_width, win_height);
    }
}

} // verus!
