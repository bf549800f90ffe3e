//! The rules of the game, stated over mathematical models of the entities.
//!
//! One tick advances the three entities, then applies the rules in a fixed
//! order: scoring, wall reflection, paddle hits, and the opponent's steering.
//! Later rules see what earlier ones changed.

use vstd::prelude::*;
use crate::fixed::{in_range, min_of, trunc_div, within, UNIT};
use crate::game_object::ball::BallModel;
use crate::game_object::paddle::PaddleModel;

verus! {

/// The longest side an arena can have: the most pixels a display reports.
pub const MAX_EXTENT: i64 = 4_294_967_295_000;

/// A side of the field, named after the player who defends it.
#[derive(Clone, Copy, Debug, PartialEq, Eq, Structural)]
pub enum Side {
    /// The human player, at small `x`.
    Left,
    /// The opponent, at large `x`.
    Right,
}

/// One of the two keys that move the player's paddle.
#[derive(Clone, Copy, Debug, PartialEq, Eq, Structural)]
pub enum Key {
    Up,
    Down,
}

/// The key that the host calls `name`, if it is one of the two.
pub open spec fn key_named(name: Seq<char>) -> Option<Key> {
    if name == "ArrowUp"@ {
        Some(Key::Up)
    } else if name == "ArrowDown"@ {
        Some(Key::Down)
    } else {
        None
    }
}

/// What a game is, mathematically.
pub ghost struct GameModel {
    pub win_width: int,
    pub win_height: int,
    /// The player's paddle, on the left.
    pub p1: PaddleModel,
    /// The opponent's paddle, on the right.
    pub p2: PaddleModel,
    pub ball: BallModel,
    pub p1_score: int,
    pub p2_score: int,
    /// Where on its paddle, measured from the centre, the opponent wants to
    /// meet the ball.
    pub p2_target: int,
    /// The clock reading of the latest tick, in milliseconds.
    pub prev_time: int,
    /// Whether the loop has been started.
    pub running: bool,
}

/// Width of both paddles in an arena of the given size.
pub open spec fn paddle_width(win_width: int, win_height: int) -> int {
    trunc_div(min_of(win_width, win_height), 50)
}

/// Height of both paddles in an arena of the given size.
pub open spec fn paddle_height(win_width: int, win_height: int) -> int {
    trunc_div(min_of(win_width, win_height), 5)
}

/// How far from its paddle's centre the ball made contact, as a ratio in
/// thousandths: the vertical distance over the paddle's height, halved.
pub open spec fn contact(ball_y: int, paddle: PaddleModel) -> int {
    trunc_div(trunc_div((ball_y - paddle.y) * UNIT, paddle.height), 2)
}

impl GameModel {
    /// The game as it opens on a display of `width` by `height` pixels: both
    /// paddles at mid-height against their walls, the ball served from the
    /// centre, no points scored, everything laid out for drawing.
    pub open spec fn opening(width: int, height: int) -> GameModel {
        let w: int = width * UNIT;
        let h: int = height * UNIT;
        let pw: int = paddle_width(w, h);
        let ph: int = paddle_height(w, h);
        GameModel {
            win_width: w,
            win_height: h,
            p1: PaddleModel::placed(trunc_div(pw, 2), trunc_div(h, 2), pw, ph).prepared(w, h),
            p2: PaddleModel::placed(w - trunc_div(pw, 2), trunc_div(h, 2), pw, ph).prepared(w, h),
            ball: BallModel::served(trunc_div(w, 2), trunc_div(h, 2), trunc_div(pw, 2)).prepared(
                w,
                h,
            ),
            p1_score: 0,
            p2_score: 0,
            p2_target: 0,
            prev_time: 0,
            running: false,
        }
    }

    /// The entities are well formed, the arena is at least a pixel each way,
    /// the paddles have the size and the horizontal place that the arena gives
    /// them, and scores and target can be stored.
    pub open spec fn wf(self) -> bool {
        &&& self.p1.wf()
        &&& self.p2.wf()
        &&& self.ball.wf()
        &&& UNIT <= self.win_width <= MAX_EXTENT
        &&& UNIT <= self.win_height <= MAX_EXTENT
        &&& self.p1.width == paddle_width(self.win_width, self.win_height)
        &&& self.p2.width == self.p1.width
        &&& self.p1.height == paddle_height(self.win_width, self.win_height)
        &&& self.p2.height == self.p1.height
        &&& self.p1.x == trunc_div(self.p1.width, 2)
        &&& self.p2.x == self.win_width - trunc_div(self.p2.width, 2)
        &&& 0 <= self.p1_score <= u32::MAX
        &&& 0 <= self.p2_score <= u32::MAX
        &&& in_range(self.p2_target)
    }

    /// Where the ball is served from.
    pub open spec fn centre_x(self) -> int {
        trunc_div(self.win_width, 2)
    }

    /// Where the ball is served from.
    pub open spec fn centre_y(self) -> int {
        trunc_div(self.win_height, 2)
    }

    /// The player's paddle told to move by a key going down.
    pub open spec fn key_down(self, key: Key) -> GameModel {
        match key {
            Key::Up => GameModel { p1: self.p1.set_dir(1), ..self },
            Key::Down => GameModel { p1: self.p1.set_dir(-1), ..self },
        }
    }

    /// The player's paddle told to rest by a key going up.
    pub open spec fn key_up(self, key: Key) -> GameModel {
        GameModel { p1: self.p1.set_dir(0), ..self }
    }

    /// All three entities `dt` milliseconds later.
    pub open spec fn advance(self, dt: int) -> GameModel {
        GameModel { p1: self.p1.step(dt), p2: self.p2.step(dt), ball: self.ball.step(dt), ..self }
    }

    /// The ball has left the field on the left while moving left.
    pub open spec fn left_out(self) -> bool {
        self.ball.dir_x() < 0 && self.ball.x <= -trunc_div(self.p1.width, 2)
    }

    /// The ball has left the field on the right while moving right.
    pub open spec fn right_out(self) -> bool {
        self.ball.dir_x() > 0 && self.ball.x >= self.win_width + trunc_div(self.p2.width, 2)
    }

    /// Who wins a point in this state, if anyone.
    pub open spec fn point(self) -> Option<Side> {
        if self.left_out() {
            Some(Side::Right)
        } else if self.right_out() {
            Some(Side::Left)
        } else {
            None
        }
    }

    /// Scoring: a ball that is out goes back to the centre, and the player on
    /// the other side gets a point.
    pub open spec fn score(self) -> GameModel {
        match self.point() {
            Some(Side::Right) => GameModel {
                ball: self.ball.reset(self.centre_x(), self.centre_y()),
                p2_score: self.p2_score + 1,
                ..self
            },
            Some(Side::Left) => GameModel {
                ball: self.ball.reset(self.centre_x(), self.centre_y()),
                p1_score: self.p1_score + 1,
                ..self
            },
            None => self,
        }
    }

    /// The ball is at the wall it moves toward. The margin is half a paddle's
    /// width.
    pub open spec fn at_wall(self) -> bool {
        ||| self.ball.dir_y() < 0 && self.ball.y <= trunc_div(self.p1.width, 2)
        ||| self.ball.dir_y() > 0 && self.ball.y >= self.win_height - trunc_div(self.p1.width, 2)
    }

    /// Wall reflection.
    pub open spec fn wall(self) -> GameModel {
        if self.at_wall() {
            GameModel { ball: self.ball.bounce_y(), ..self }
        } else {
            self
        }
    }

    /// The ball moves left, is no further right than one and a half paddle
    /// widths, and is level with the player's paddle.
    pub open spec fn hits_left(self) -> bool {
        &&& self.ball.dir_x() < 0
        &&& self.ball.x <= trunc_div(self.p1.width * 3, 2)
        &&& within(self.ball.y, self.p1.y, trunc_div(self.p1.height, 2))
    }

    /// The ball moves right, is no further left than one and a half paddle
    /// widths from the right edge, and is level with the opponent's paddle.
    pub open spec fn hits_right(self) -> bool {
        &&& self.ball.dir_x() > 0
        &&& self.ball.x >= self.win_width - trunc_div(self.p2.width * 3, 2)
        &&& within(self.ball.y, self.p2.y, trunc_div(self.p2.height, 2))
    }

    /// Paddle hits. The player's paddle is tried first; a hit on the
    /// opponent's paddle also gives the opponent the new target `fresh_target`.
    pub open spec fn paddles(self, fresh_target: int) -> GameModel {
        if self.hits_left() {
            GameModel { ball: self.ball.bounce(contact(self.ball.y, self.p1)), ..self }
        } else if self.hits_right() {
            GameModel {
                ball: self.ball.bounce(contact(self.ball.y, self.p2)),
                p2_target: fresh_target,
                ..self
            }
        } else {
            self
        }
    }

    /// The opponent's target point is within the deadband around the ball: a
    /// fiftieth of the paddle's height.
    pub open spec fn aligned(self) -> bool {
        within(self.p2.y + self.p2_target, self.ball.y, trunc_div(self.p2.height, 50))
    }

    /// The direction the opponent chooses: none inside the deadband, else
    /// toward the ball.
    pub open spec fn aim(self) -> int {
        if self.aligned() {
            0
        } else if self.p2.y + self.p2_target < self.ball.y {
            1
        } else {
            -1
        }
    }

    /// The opponent's steering.
    pub open spec fn steer(self) -> GameModel {
        GameModel { p2: self.p2.set_dir(self.aim()), ..self }
    }

    /// The state in which paddle hits are decided, `dt` milliseconds on.
    pub open spec fn before_paddles(self, dt: int) -> GameModel {
        self.advance(dt).score().wall()
    }

    /// Whether `dt` milliseconds on the ball hits the opponent's paddle, so
    /// that the opponent picks a new target.
    pub open spec fn retargets(self, dt: int) -> bool {
        !self.before_paddles(dt).hits_left() && self.before_paddles(dt).hits_right()
    }

    /// One round of physics and rules over `dt` milliseconds.
    pub open spec fn physics(self, dt: int, fresh_target: int) -> GameModel {
        self.before_paddles(dt).paddles(fresh_target).steer()
    }

    /// Whether the state after `dt` milliseconds can be stored: every position,
    /// and the score that would grow.
    pub open spec fn can_physics(self, dt: int) -> bool {
        &&& self.p1.can_step(dt)
        &&& self.p2.can_step(dt)
        &&& self.ball.can_step(dt)
        &&& self.advance(dt).point() == Some(Side::Right) ==> self.p2_score < u32::MAX
        &&& self.advance(dt).point() == Some(Side::Left) ==> self.p1_score < u32::MAX
    }

    /// Every entity's vertex buffer laid out afresh.
    pub open spec fn render(self) -> GameModel {
        GameModel {
            ball: self.ball.drawn(self.win_width, self.win_height),
            p1: self.p1.drawn(self.win_width, self.win_height),
            p2: self.p2.drawn(self.win_width, self.win_height),
            ..self
        }
    }

    /// One tick at clock reading `now`: physics over the time since the
    /// latest tick, then rendering.
    pub open spec fn tick(self, now: int, fresh_target: int) -> GameModel {
        GameModel { prev_time: now, ..self.physics(now - self.prev_time, fresh_target).render() }
    }

    /// Whether a tick at clock reading `now` can be taken: the loop runs, the
    /// elapsed time fits a machine word, and the physics can be stored.
    pub open spec fn can_tick(self, now: int) -> bool {
        &&& self.running
        &&& i64::MIN <= now - self.prev_time <= i64::MAX
        &&& self.can_physics(now - self.prev_time)
    }
}

/// A ball that is level with a paddle makes contact within a quarter of the
/// paddle's height of its centre, so the contact offset is at most 250
/// thousandths either way; and such a paddle is at least two units high.
pub proof fn lemma_contact_bound(ball_y: int, paddle: PaddleModel)
    requires
        within(ball_y, paddle.y, trunc_div(paddle.height, 2)),
    ensures
        paddle.height >= 2,
        -250 <= contact(ball_y, paddle) <= 250,
{
    let d: int = ball_y - paddle.y;
    let h: int = paddle.height;
    if d >= 0 {
        assert((d * UNIT) / h <= 500) by (nonlinear_arith)
            requires
                0 <= d,
                2 * d < h,
        ;
        assert((d * UNIT) / h >= 0) by (nonlinear_arith)
            requires
                0 <= d,
                2 * d < h,
        ;
    } else {
        assert((-(d * UNIT)) / h <= 500) by (nonlinear_arith)
            requires
                0 < -d,
                2 * (-d) < h,
        ;
        assert((-(d * UNIT)) / h >= 0) by (nonlinear_arith)
            requires
                0 < -d,
                2 * (-d) < h,
        ;
    }
}

/// At most one player wins a point in a tick: the ball cannot be out on both
/// sides, and between them the two scores grow by one at most.
pub proof fn law_one_point_per_tick(g: GameModel, dt: int, fresh_target: int)
    ensures
        !(g.advance(dt).left_out() && g.advance(dt).right_out()),
        g.physics(dt, fresh_target).p1_score == g.p1_score + if g.advance(dt).point() == Some(
            Side::Left,
        ) {
            1int
        } else {
            0int
        },
        g.physics(dt, fresh_target).p2_score == g.p2_score + if g.advance(dt).point() == Some(
            Side::Right,
        ) {
            1int
        } else {
            0int
        },
        g.physics(dt, fresh_target).p1_score == g.p1_score || g.physics(dt, fresh_target).p2_score
            == g.p2_score,
{
}

/// A point is followed by a serve: the ball that was out is back at the
/// centre of the arena, moving left and level when the rules that follow see
/// it.
pub proof fn law_point_serves(g: GameModel, dt: int)
    requires
        g.advance(dt).point() is Some,
    ensures
        g.advance(dt).score().ball == g.ball.reset(g.centre_x(), g.centre_y()),
{
}

/// The opponent's deadband: after a tick the opponent rests exactly when its
/// target point is within a fiftieth of its paddle's height of the ball, and
/// otherwise moves toward the ball.
pub proof fn law_deadband(g: GameModel, dt: int, fresh_target: int)
    ensures
        ({
            let r = g.physics(dt, fresh_target);
            let gap = r.p2.y + r.p2_target - r.ball.y;
            let band = trunc_div(r.p2.height, 50);
            &&& -band < gap < band ==> r.p2.dir == 0
            &&& !(-band < gap < band) && gap < 0 ==> r.p2.dir == 1
            &&& !(-band < gap < band) && gap >= 0 ==> r.p2.dir == -1
        }),
{
}

/// Physics moves the paddles along the vertical axis only, and leaves the
/// arena and the clock alone.
pub proof fn law_paddles_keep_their_place(g: GameModel, dt: int, fresh_target: int)
    ensures
        ({
            let r = g.physics(dt, fresh_target);
            &&& r.p1.x == g.p1.x && r.p1.width == g.p1.width && r.p1.height == g.p1.height
            &&& r.p2.x == g.p2.x && r.p2.width == g.p2.width && r.p2.height == g.p2.height
            &&& r.p1.dir == g.p1.dir
            &&& r.ball.radius == g.ball.radius
            &&& r.win_width == g.win_width && r.win_height == g.win_height
            &&& r.prev_time == g.prev_time && r.running == g.running
        }),
{
}

/// Physics keeps a well-formed game well formed, whenever its result can be
/// stored: in particular the ball's horizontal speed stays the serve speed,
/// and its vertical speed never exceeds a pixel per millisecond after a hit.
pub proof fn law_physics_keeps_wf(g: GameModel, dt: int, fresh_target: int)
    requires
        g.wf(),
        g.can_physics(dt),
        in_range(fresh_target),
    ensures
        g.physics(dt, fresh_target).wf(),
        g.before_paddles(dt).hits_left() || g.before_paddles(dt).hits_right() ==> -UNIT
            <= g.physics(dt, fresh_target).ball.velo_y <= UNIT,
{
    let b = g.before_paddles(dt);
    if b.hits_left() {
        lemma_contact_bound(b.ball.y, b.p1);
    } else if b.hits_right() {
        lemma_contact_bound(b.ball.y, b.p2);
    }
}

/// In a well-formed game the two walls are apart: no ball is at both, and a
/// moving ball that a wall has reflected is at neither.
pub proof fn law_one_wall_at_a_time(g: GameModel)
    requires
        g.wf(),
    ensures
        !(g.ball.y <= trunc_div(g.p1.width, 2) && g.ball.y >= g.win_height - trunc_div(
            g.p1.width,
            2,
        )),
        g.at_wall() && g.ball.velo_y != 0 ==> !g.wall().at_wall(),
{
}

/// The ball leaves the level only at a paddle: a ball without vertical
/// velocity keeps none through a tick in which it hits neither paddle.
pub proof fn law_level_until_hit(g: GameModel, dt: int, fresh_target: int)
    requires
        g.ball.velo_y == 0,
        !g.before_paddles(dt).hits_left(),
        !g.before_paddles(dt).hits_right(),
    ensures
        g.physics(dt, fresh_target).ball.velo_y == 0,
        g.physics(dt, fresh_target).ball.y == g.ball.y || g.advance(dt).point() is Some,
{
}

} // verus!
