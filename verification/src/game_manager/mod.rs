//! The game: its state, its rules, and the loop that drives it.

pub mod model;
mod random;
pub mod schedule;

use vstd::prelude::*;
use crate::fixed::{in_range, is_within, moved, smaller, trunc_div, UNIT};
use crate::game_object::ball::Ball;
use crate::game_object::paddle::Paddle;
use crate::game_object::traits::{Draw, Step};
use self::model::{key_named, lemma_contact_bound, GameModel, Key, Side};
use self::random::random_between;
use self::schedule::{after, follows, Callback, Schedule};

verus! {

/// The whole state of one game. A single owner advances it tick by tick;
/// between ticks only the player's keys reach it.
pub struct GameManager {
    win_width: i64,
    win_height: i64,
    p1: Paddle,
    p2: Paddle,
    ball: Ball,
    p1_score: u32,
    p2_score: u32,
    p2_target: i64,
    prev_time: i64,
    running: bool,
}

/// What one tick tells the host.
pub struct Tick {
    /// Who won a point in this tick, if anyone: their score has changed.
    pub scored: Option<Side>,
    /// What to ask of the host next.
    pub next: Schedule,
}

impl View for GameManager {
    type V = GameModel;

    closed spec fn view(&self) -> GameModel {
        GameModel {
            win_width: self.win_width as int,
            win_height: self.win_height as int,
            p1: self.p1@,
            p2: self.p2@,
            ball: self.ball@,
            p1_score: self.p1_score as int,
            p2_score: self.p2_score as int,
            p2_target: self.p2_target as int,
            prev_time: self.prev_time as int,
            running: self.running,
        }
    }
}

/// The key that a key name of the host stands for, if any.
pub fn key_from_name(name: &str) -> (key: Option<Key>)
    ensures
        key == key_named(name@),
{
    if same_text(name, "ArrowUp") {
        Some(Key::Up)
    } else if same_text(name, "ArrowDown") {
        Some(Key::Down)
    } else {
        None
    }
}

/// Whether two texts hold the same characters.
fn same_text(a: &str, b: &str) -> (same: bool)
    ensures
        same == (a@ == b@),
{
    let n: usize = a.unicode_len();
    if n != b.unicode_len() {
        return false;
    }
    let mut i: usize = 0;
    while i < n
        invariant
            0 <= i <= n,
            n == a@.len(),
            n == b@.len(),
            forall|j: int| 0 <= j < i ==> a@[j] == b@[j],
        decreases n - i,
    {
        if a.get_char(i) != b.get_char(i) {
            return false;
        }
        i += 1;
    }
    assert(a@ =~= b@);
    true
}

impl GameManager {
    /// Opens a game on a display of `win_width` by `win_height` pixels.
    pub fn new(win_width: u32, win_height: u32) -> (gm: GameManager)
        requires
            win_width > 0,
            win_height > 0,
        ensures
            gm@ == GameModel::opening(win_width as int, win_height as int),
            gm@.wf(),
    {
        let w: i64 = win_width as i64 * UNIT;
        let h: i64 = win_height as i64 * UNIT;
        let paddle_width: i64 = smaller(w, h) / 50;
        let paddle_height: i64 = smaller(w, h) / 5;

        let mut p1 = Paddle::new(paddle_width / 2, h / 2, paddle_width, paddle_height);
        p1.init_gl(w, h);

        let mut p2 = Paddle::new(w - paddle_width / 2, h / 2, paddle_width, paddle_height);
        p2.init_gl(w, h);

        let mut ball = Ball::new(w / 2, h / 2, paddle_width / 2);
        ball.init_gl(w, h);

        GameManager {
            win_width: w,
            win_height: h,
            p1,
            p2,
            ball,
            p1_score: 0,
            p2_score: 0,
            p2_target: 0,
            prev_time: 0,
            running: false,
        }
    }

    /// A key went down: the player's paddle moves up for `Up`, down for
    /// `Down`.
    pub fn key_down(&mut self, key: Key)
        requires
            old(self)@.wf(),
        ensures
            final(self)@ == old(self)@.key_down(key),
            final(self)@.wf(),
    {
        match key {
            Key::Up => self.p1.set_dir(1),
            Key::Down => self.p1.set_dir(-1),
        }
    }

    /// A key went up: the player's paddle rests.
    pub fn key_up(&mut self, key: Key)
        requires
            old(self)@.wf(),
        ensures
            final(self)@ == old(self)@.key_up(key),
            final(self)@.wf(),
    {
        match key {
            Key::Up => self.p1.set_dir(0),
            Key::Down => self.p1.set_dir(0),
        }
    }

    /// Starts the loop at clock reading `now` with the opponent's first
    /// target given.
    pub fn start_with(&mut self, now: i64, target: i64) -> (next: Schedule)
        requires
            old(self)@.wf(),
            in_range(target as int),
        ensures
            final(self)@ == (GameModel {
                running: true,
                prev_time: now as int,
                p2_target: target as int,
                ..old(self)@
            }),
            final(self)@.wf(),
            next == Schedule::NextFrame,
    {
        self.p2_target = target;
        self.prev_time = now;
        self.running = true;
        Schedule::NextFrame
    }

    /// Starts the loop at clock reading `now`. The opponent's first target is
    /// drawn at random from within half the paddle's height of its centre.
    pub fn start_game(&mut self, now: i64) -> (next: Schedule)
        requires
            old(self)@.wf(),
        ensures
            final(self)@ == (GameModel {
                running: true,
                prev_time: now as int,
                p2_target: final(self)@.p2_target,
                ..old(self)@
            }),
            -trunc_div(old(self)@.p2.height, 2) <= final(self)@.p2_target < trunc_div(
                old(self)@.p2.height,
                2,
            ),
            final(self)@.wf(),
            next == Schedule::NextFrame,
    {
        let half: i64 = self.p2.get_height() / 2;
        let target: i64 = random_between(-half, half);
        self.start_with(now, target)
    }

    /// Advances the entities and applies scoring, wall reflection and paddle
    /// hits, leaving the opponent's target as it is. Tells who scored and
    /// whether the opponent's paddle was hit.
    fn play(&mut self, dt: i64) -> (res: (Option<Side>, bool))
        requires
            old(self)@.wf(),
            old(self)@.can_physics(dt as int),
        ensures
            final(self)@ == old(self)@.before_paddles(dt as int).paddles(old(self)@.p2_target),
            final(self)@.wf(),
            res.0 == old(self)@.advance(dt as int).point(),
            res.1 == old(self)@.retargets(dt as int),
    {
        self.p1.step(dt);
        self.p2.step(dt);
        self.ball.step(dt);

        // Out of bounds
        let mut scored: Option<Side> = None;
        if self.ball.get_dir() < 0 && self.ball.get_x() <= 0 - self.p1.get_width() / 2 {
            self.ball.reset(self.win_width / 2, self.win_height / 2);
            self.p2_score += 1;
            scored = Some(Side::Right);
        }
        if self.ball.get_dir() > 0 && self.ball.get_x() >= self.win_width + self.p2.get_width()
            / 2 {
            self.ball.reset(self.win_width / 2, self.win_height / 2);
            self.p1_score += 1;
            scored = Some(Side::Left);
        }

        // Walls
        if (self.ball.get_y_dir() < 0 && self.ball.get_y() <= self.p1.get_width() / 2) || (
        self.ball.get_y_dir() > 0 && self.ball.get_y() >= self.win_height - self.p1.get_width()
            / 2) {
            self.ball.bounce_y();
        }

        // Paddles
        let mut hit: bool = false;
        if self.ball.get_dir() < 0 && self.ball.get_x() <= self.p1.get_width() * 3 / 2
            && is_within(self.ball.get_y(), self.p1.get_y(), self.p1.get_height() / 2) {
            proof {
                lemma_contact_bound(self.ball@.y, self.p1@);
            }
            let dy: i64 = (self.ball.get_y() - self.p1.get_y()) * UNIT / self.p1.get_height() / 2;
            self.ball.bounce(dy);
        } else if self.ball.get_dir() > 0 && self.ball.get_x() >= self.win_width
            - self.p2.get_width() * 3 / 2 && is_within(
            self.ball.get_y(),
            self.p2.get_y(),
            self.p2.get_height() / 2,
        ) {
            proof {
                lemma_contact_bound(self.ball@.y, self.p2@);
            }
            let dy: i64 = (self.ball.get_y() - self.p2.get_y()) * UNIT / self.p2.get_height() / 2;
            self.ball.bounce(dy);
            hit = true;
        }
        (scored, hit)
    }

    /// The opponent's steering: rest inside the deadband, else move toward
    /// the ball.
    fn steer(&mut self)
        requires
            old(self)@.wf(),
        ensures
            final(self)@ == old(self)@.steer(),
            final(self)@.wf(),
    {
        if !is_within(
            self.p2.get_y() + self.p2_target,
            self.ball.get_y(),
            self.p2.get_height() / 50,
        ) {
            if self.p2.get_y() + self.p2_target < self.ball.get_y() {
                self.p2.set_dir(1);
            } else {
                self.p2.set_dir(-1);
            }
        } else {
            self.p2.set_dir(0);
        }
    }

    /// One round of physics and rules over `dt` milliseconds, with the target
    /// given that the opponent takes up if the ball hits its paddle. Returns
    /// who won a point.
    pub fn physics_with(&mut self, dt: i64, fresh_target: i64) -> (scored: Option<Side>)
        requires
            old(self)@.wf(),
            old(self)@.can_physics(dt as int),
            in_range(fresh_target as int),
        ensures
            final(self)@ == old(self)@.physics(dt as int, fresh_target as int),
            final(self)@.wf(),
            scored == old(self)@.advance(dt as int).point(),
    {
        let (scored, hit) = self.play(dt);
        if hit {
            self.p2_target = fresh_target;
        }
        self.steer();
        scored
    }

    /// One round of physics and rules over `dt` milliseconds. If the ball hits
    /// the opponent's paddle, the opponent's new target is drawn at random
    /// from within half the paddle's height of its centre. Returns who won a
    /// point.
    pub fn physics(&mut self, dt: i64) -> (scored: Option<Side>)
        requires
            old(self)@.wf(),
            old(self)@.can_physics(dt as int),
        ensures
            final(self)@ == old(self)@.physics(dt as int, final(self)@.p2_target),
            old(self)@.retargets(dt as int) ==> -trunc_div(old(self)@.p2.height, 2)
                <= final(self)@.p2_target < trunc_div(old(self)@.p2.height, 2),
            final(self)@.wf(),
            scored == old(self)@.advance(dt as int).point(),
    {
        let (scored, hit) = self.play(dt);
        if hit {
            let half: i64 = self.p2.get_height() / 2;
            self.p2_target = random_between(-half, half);
        }
        self.steer();
        scored
    }

    /// Decides at run time whether `physics` may be called with `dt`.
    pub fn check_physics(&self, dt: i64) -> (ok: bool)
        requires
            self@.wf(),
        ensures
            ok == self@.can_physics(dt as int),
    {
        if !(self.p1.check_step(dt) && self.p2.check_step(dt) && self.ball.check_step(dt)) {
            return false;
        }
        let x: i128 = moved(self.ball.get_x(), self.ball.get_velo_x(), dt);
        let left: i128 = 0 - (self.p1.get_width() / 2) as i128;
        let right: i128 = (self.win_width + self.p2.get_width() / 2) as i128;
        if self.ball.get_dir() < 0 && x <= left {
            self.p2_score < u32::MAX
        } else if self.ball.get_dir() > 0 && x >= right {
            self.p1_score < u32::MAX
        } else {
            true
        }
    }

    /// Lays out every entity's vertex buffer afresh: the ball, then the
    /// player's paddle, then the opponent's.
    pub fn render(&mut self)
        requires
            old(self)@.wf(),
        ensures
            final(self)@ == old(self)@.render(),
            final(self)@.wf(),
    {
        self.ball.draw(self.win_width, self.win_height);
        self.p1.draw(self.win_width, self.win_height);
        self.p2.draw(self.win_width, self.win_height);
    }

    /// One tick at clock reading `now`, with the target given that the
    /// opponent takes up if the ball hits its paddle.
    pub fn tick_with(&mut self, now: i64, fresh_target: i64) -> (tick: Tick)
        requires
            old(self)@.wf(),
            old(self)@.can_tick(now as int),
            in_range(fresh_target as int),
        ensures
            final(self)@ == old(self)@.tick(now as int, fresh_target as int),
            final(self)@.wf(),
            tick.scored == old(self)@.advance(now - old(self)@.prev_time).point(),
            tick.next == follows(Callback::Frame),
    {
        let dt: i64 = now - self.prev_time;
        self.prev_time = now;
        let scored = self.physics_with(dt, fresh_target);
        self.render();
        Tick { scored, next: after(Callback::Frame) }
    }

    /// One tick at clock reading `now`: the time since the latest tick is
    /// measured, physics and rules run over it, every entity is laid out for
    /// drawing, and the next callback is named.
    pub fn tick(&mut self, now: i64) -> (tick: Tick)
        requires
            old(self)@.wf(),
            old(self)@.can_tick(now as int),
        ensures
            final(self)@ == old(self)@.tick(now as int, final(self)@.p2_target),
            old(self)@.retargets(now - old(self)@.prev_time) ==> -trunc_div(
                old(self)@.p2.height,
                2,
            ) <= final(self)@.p2_target < trunc_div(old(self)@.p2.height, 2),
            final(self)@.wf(),
            tick.scored == old(self)@.advance(now - old(self)@.prev_time).point(),
            tick.next == follows(Callback::Frame),
    {
        let dt: i64 = now - self.prev_time;
        self.prev_time = now;
        let scored = self.physics(dt);
        self.render();
        Tick { scored, next: after(Callback::Frame) }
    }

    /// Decides at run time whether `tick` may be called with `now`.
    pub fn check_tick(&self, now: i64) -> (ok: bool)
        requires
            self@.wf(),
        ensures
            ok == self@.can_tick(now as int),
    {
        let dt: i128 = now as i128 - self.prev_time as i128;
        if !self.running || dt < i64::MIN as i128 || dt > i64::MAX as i128 {
            return false;
        }
        self.check_physics(dt as i64)
    }

    /// The ball.
    pub fn ball(&self) -> (ball: &Ball)
        ensures
            ball@ == self@.ball,
    {
        &self.ball
    }

    /// The player's paddle.
    pub fn p1(&self) -> (paddle: &Paddle)
        ensures
            paddle@ == self@.p1,
    {
        &self.p1
    }

    /// The opponent's paddle.
    pub fn p2(&self) -> (paddle: &Paddle)
        ensures
            paddle@ == self@.p2,
    {
        &self.p2
    }

    /// The player's score.
    pub fn p1_score(&self) -> (score: u32)
        ensures
            score == self@.p1_score,
    {
        self.p1_score
    }

    /// The opponent's score.
    pub fn p2_score(&self) -> (score: u32)
        ensures
            score == self@.p2_score,
    {
        self.p2_score
    }

    /// The opponent's target.
    pub fn p2_target(&self) -> (target: i64)
        ensures
            target == self@.p2_target,
    {
        self.p2_target
    }

    /// Width of the arena.
    pub fn win_width(&self) -> (w: i64)
        ensures
            w == self@.win_width,
    {
        self.win_width
    }

    /// Height of the arena.
    pub fn win_height(&self) -> (h: i64)
        ensures
            h == self@.win_height,
    {
        self.win_height
    }

    /// Whether the loop has been started.
    pub fn is_running(&self) -> (running: bool)
        ensures
            running == self@.running,
    {
        self.running
    }
}

} // verus!
