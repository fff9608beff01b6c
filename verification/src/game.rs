//! The per-frame simulation: paddle movement, ball movement, paddle
//! collision, wall bounce, and the scoring reset.
//!
//! The whole frame is modelled by the spec function [`step`], built from one
//! spec function per stage in the order the frame applies them; `update`
//! is proved to produce exactly `step` of its pre-state.

use vstd::prelude::*;
use crate::entity::Entity;
use crate::geometry::{half, Rectangle, Vec2};
use crate::{
    BALL_ACC, BALL_SPEED, COORD_LIMIT, PADDLE_MARGIN, PADDLE_SPEED, PADDLE_SPIN, WINDOW_HEIGHT,
    WINDOW_WIDTH,
};

verus! {

/// Which of the four paddle keys are held this frame.
#[derive(Clone, Copy, PartialEq, Eq, Structural, Debug)]
pub struct Keys {
    pub player1_up: bool,
    pub player1_down: bool,
    pub player2_up: bool,
    pub player2_down: bool,
}

impl Keys {
    /// No key held.
    pub fn none() -> (r: Keys)
        ensures
            r == (Keys {
                player1_up: false,
                player1_down: false,
                player2_up: false,
                player2_down: false,
            }),
    {
        Keys { player1_up: false, player1_down: false, player2_up: false, player2_down: false }
    }
}

/// The whole game: left paddle, right paddle, ball.
#[derive(Clone, Copy, PartialEq, Eq, Structural, Debug)]
pub struct GameState {
    pub player1: Entity,
    pub player2: Entity,
    pub ball: Entity,
}

/// The sign factor the hit acceleration uses: positive velocity (and zero,
/// as the host's floating-point `signum` treats positive zero) accelerates
/// rightward, negative leftward.
pub open spec fn sign(v: int) -> int {
    if v >= 0 {
        1
    } else {
        -1
    }
}

/// The vertical velocity change a paddle hit adds to the ball: the spin
/// constant times the centre offset, divided by the paddle height, with the
/// magnitude truncated toward zero. `diff` is paddle centre y minus ball
/// centre y; a ball striking above the paddle centre (`diff > 0`) is pushed
/// upward (negative delta), and below pushed downward.
pub open spec fn spin_delta(diff: int, height: int) -> int
    recommends
        height > 0,
{
    if diff >= 0 {
        -((PADDLE_SPIN * diff) / height)
    } else {
        (PADDLE_SPIN * -diff) / height
    }
}

/// One paddle's movement for the frame. Both key checks read the bounds the
/// paddle had at the start of the frame, so holding both keys at an edge
/// moves up and back down in the same frame.
pub open spec fn paddle_stepped(e: Entity, up: bool, down: bool) -> Entity {
    let b = e.bounds_spec();
    let y1 = if up && b.top_spec() > 0 {
        e.position.y - PADDLE_SPEED
    } else {
        e.position.y as int
    };
    let y2 = if down && b.bottom_spec() < WINDOW_HEIGHT {
        y1 + PADDLE_SPEED
    } else {
        y1
    };
    Entity {
        width: e.width,
        height: e.height,
        position: Vec2 { x: e.position.x, y: y2 as i64 },
        velocity: e.velocity,
    }
}

/// The ball's unconditional movement: position plus velocity.
pub open spec fn ball_stepped(b: Entity) -> Entity {
    Entity {
        width: b.width,
        height: b.height,
        position: Vec2 {
            x: (b.position.x + b.velocity.x) as i64,
            y: (b.position.y + b.velocity.y) as i64,
        },
        velocity: b.velocity,
    }
}

/// The state after the movement stage: both paddles stepped, ball stepped.
pub open spec fn move_stage(s: GameState, keys: Keys) -> GameState {
    GameState {
        player1: paddle_stepped(s.player1, keys.player1_up, keys.player1_down),
        player2: paddle_stepped(s.player2, keys.player2_up, keys.player2_down),
        ball: ball_stepped(s.ball),
    }
}

/// Whether the moved ball overlaps either paddle's start-of-frame bounds.
pub open spec fn hit_detected(s: GameState, keys: Keys) -> bool {
    let bb = move_stage(s, keys).ball.bounds_spec();
    ||| bb.intersects_spec(s.player1.bounds_spec())
    ||| bb.intersects_spec(s.player2.bounds_spec())
}

/// The ball after a paddle hit: horizontal speed grows by [`BALL_ACC`] in
/// its direction of travel and then reverses; the spin delta for the given
/// paddle is added to the vertical velocity.
pub open spec fn hit_ball(paddle: Entity, ball: Entity) -> Entity {
    let vx = ball.velocity.x as int;
    let diff = paddle.centre_spec().y - ball.centre_spec().y;
    Entity {
        width: ball.width,
        height: ball.height,
        position: ball.position,
        velocity: Vec2 {
            x: (-(vx + BALL_ACC * sign(vx))) as i64,
            y: (ball.velocity.y + spin_delta(diff, paddle.height as int)) as i64,
        },
    }
}

/// The state after the collision stage. Every hit — against either paddle —
/// is attributed to the left paddle: the spin is computed from the left
/// paddle's centre and height even when the ball struck the right paddle.
pub open spec fn collide_stage(s: GameState, keys: Keys) -> GameState {
    let m = move_stage(s, keys);
    if hit_detected(s, keys) {
        GameState { player1: m.player1, player2: m.player2, ball: hit_ball(m.player1, m.ball) }
    } else {
        m
    }
}

/// Whether the ball touches or overlaps the top or bottom wall.
pub open spec fn wall_contact(b: Entity) -> bool {
    b.position.y <= 0 || b.position.y + b.height >= WINDOW_HEIGHT
}

/// The state after the wall-bounce stage: on wall contact the vertical
/// velocity is negated; the position is not corrected.
pub open spec fn bounce_stage(s: GameState, keys: Keys) -> GameState {
    let c = collide_stage(s, keys);
    if wall_contact(c.ball) {
        GameState {
            player1: c.player1,
            player2: c.player2,
            ball: Entity {
                width: c.ball.width,
                height: c.ball.height,
                position: c.ball.position,
                velocity: Vec2 { x: c.ball.velocity.x, y: (-(c.ball.velocity.y as int)) as i64 },
            },
        }
    } else {
        c
    }
}

/// The state after a scoring reset: the ball is centred and restarts moving
/// left at [`BALL_SPEED`]; each paddle returns to its side at
/// [`PADDLE_MARGIN`] from the wall, vertically centred. The sizes come from
/// the bounds captured during the frame (`p1b`, `p2b` at the start, `bb`
/// after the ball moved); paddle velocities are untouched.
pub open spec fn reset_applied(
    s: GameState,
    p1b: Rectangle,
    p2b: Rectangle,
    bb: Rectangle,
) -> GameState {
    GameState {
        player1: Entity {
            width: s.player1.width,
            height: s.player1.height,
            position: Vec2 {
                x: PADDLE_MARGIN,
                y: half(WINDOW_HEIGHT - p1b.height) as i64,
            },
            velocity: s.player1.velocity,
        },
        player2: Entity {
            width: s.player2.width,
            height: s.player2.height,
            position: Vec2 {
                x: (WINDOW_WIDTH - p2b.width - PADDLE_MARGIN) as i64,
                y: half(WINDOW_HEIGHT - p2b.height) as i64,
            },
            velocity: s.player2.velocity,
        },
        ball: Entity {
            width: s.ball.width,
            height: s.ball.height,
            position: Vec2 {
                x: (WINDOW_WIDTH / 2 - half(bb.width as int)) as i64,
                y: (WINDOW_HEIGHT / 2 - half(bb.height as int)) as i64,
            },
            velocity: Vec2 { x: (-BALL_SPEED) as i64, y: 0i64 },
        },
    }
}

/// One whole frame: movement, collision, wall bounce, then the left-exit
/// and right-exit reset checks in that order, each on the ball position it
/// finds (so a left reset, which recentres the ball, also prevents the
/// right check from firing).
pub open spec fn step(s: GameState, keys: Keys) -> GameState {
    let p1b = s.player1.bounds_spec();
    let p2b = s.player2.bounds_spec();
    let bb = move_stage(s, keys).ball.bounds_spec();
    let b = bounce_stage(s, keys);
    let r1 = if b.ball.position.x < 0 {
        reset_applied(b, p1b, p2b, bb)
    } else {
        b
    };
    if r1.ball.position.x > WINDOW_WIDTH {
        reset_applied(r1, p1b, p2b, bb)
    } else {
        r1
    }
}

/// The initial layout for the given entity sizes: paddles at their margins,
/// vertically centred; ball centred, moving left at [`BALL_SPEED`].
pub open spec fn initial_state(
    p1_width: i64,
    p1_height: i64,
    p2_width: i64,
    p2_height: i64,
    ball_width: i64,
    ball_height: i64,
) -> GameState {
    GameState {
        player1: Entity {
            width: p1_width,
            height: p1_height,
            position: Vec2 { x: PADDLE_MARGIN, y: half(WINDOW_HEIGHT - p1_height) as i64 },
            velocity: Vec2 { x: 0i64, y: 0i64 },
        },
        player2: Entity {
            width: p2_width,
            height: p2_height,
            position: Vec2 {
                x: (WINDOW_WIDTH - p2_width - PADDLE_MARGIN) as i64,
                y: half(WINDOW_HEIGHT - p2_height) as i64,
            },
            velocity: Vec2 { x: 0i64, y: 0i64 },
        },
        ball: Entity {
            width: ball_width,
            height: ball_height,
            position: Vec2 {
                x: (WINDOW_WIDTH / 2 - half(ball_width as int)) as i64,
                y: (WINDOW_HEIGHT / 2 - half(ball_height as int)) as i64,
            },
            velocity: Vec2 { x: (-BALL_SPEED) as i64, y: 0i64 },
        },
    }
}

impl GameState {
    /// All three entities are well-formed.
    pub open spec fn wf(self) -> bool {
        self.player1.wf() && self.player2.wf() && self.ball.wf()
    }

    /// A fresh game for entities of the given sizes.
    pub fn new(
        p1_width: i64,
        p1_height: i64,
        p2_width: i64,
        p2_height: i64,
        ball_width: i64,
        ball_height: i64,
    ) -> (r: GameState)
        requires
            0 < p1_width <= COORD_LIMIT,
            0 < p1_height <= COORD_LIMIT,
            0 < p2_width <= COORD_LIMIT,
            0 < p2_height <= COORD_LIMIT,
            0 < ball_width <= COORD_LIMIT,
            0 < ball_height <= COORD_LIMIT,
        ensures
            r == initial_state(p1_width, p1_height, p2_width, p2_height, ball_width, ball_height),
            r.wf(),
    {
        let player1 = Entity::new(
            p1_width,
            p1_height,
            Vec2::new(PADDLE_MARGIN, (WINDOW_HEIGHT - p1_height) / 2),
        );
        let player2 = Entity::new(
            p2_width,
            p2_height,
            Vec2::new(WINDOW_WIDTH - p2_width - PADDLE_MARGIN, (WINDOW_HEIGHT - p2_height) / 2),
        );
        let ball = Entity::with_velocity(
            ball_width,
            ball_height,
            Vec2::new(WINDOW_WIDTH / 2 - ball_width / 2, WINDOW_HEIGHT / 2 - ball_height / 2),
            Vec2::new(-BALL_SPEED, 0),
        );
        GameState { player1, player2, ball }
    }

    /// Advance the simulation by one frame for the given held keys.
    #[verifier::rlimit(60)]
    #[verifier::spinoff_prover]
    pub fn update(&mut self, keys: Keys)
        requires
            old(self).wf(),
        ensures
            *final(self) == step(*old(self), keys),
    {
        let ghost s0: GameState = *self;

        let player1_bounds = self.player1.bounds();
        let player2_bounds = self.player2.bounds();

        if keys.player1_up && player1_bounds.top() > 0 {
            self.player1.position.y = self.player1.position.y - PADDLE_SPEED;
        }
        if keys.player1_down && player1_bounds.bottom() < WINDOW_HEIGHT {
            self.player1.position.y = self.player1.position.y + PADDLE_SPEED;
        }
        if keys.player2_up && player2_bounds.top() > 0 {
            self.player2.position.y = self.player2.position.y - PADDLE_SPEED;
        }
        if keys.player2_down && player2_bounds.bottom() < WINDOW_HEIGHT {
            self.player2.position.y = self.player2.position.y + PADDLE_SPEED;
        }

        self.ball.position.x = self.ball.position.x + self.ball.velocity.x;
        self.ball.position.y = self.ball.position.y + self.ball.velocity.y;

        let ball_bounds = self.ball.bounds();
        assert(*self == move_stage(s0, keys));

        let hit = ball_bounds.intersects(&player1_bounds) || ball_bounds.intersects(
            &player2_bounds,
        );
        if hit {
            // Increase the ball's horizontal speed, then flip its direction.
            let vx = self.ball.velocity.x;
            self.ball.velocity.x = if vx >= 0 {
                -(vx + BALL_ACC)
            } else {
                -(vx - BALL_ACC)
            };

            // The offset between the paddle centre and the ball centre,
            // always read from the left paddle, whichever paddle was hit.
            let diff = self.player1.centre().y - self.ball.centre().y;
            let delta = if diff >= 0 {
                -((PADDLE_SPIN * diff) / self.player1.height)
            } else {
                (PADDLE_SPIN * (-diff)) / self.player1.height
            };
            self.ball.velocity.y = self.ball.velocity.y + delta;
        }
        assert(*self == collide_stage(s0, keys));

        if self.ball.position.y <= 0 || self.ball.position.y + self.ball.height >= WINDOW_HEIGHT {
            self.ball.velocity.y = -self.ball.velocity.y;
        }
        assert(*self == bounce_stage(s0, keys));

        if self.ball.position.x < 0 {
            self.ball.velocity = Vec2::new(-BALL_SPEED, 0);
            self.ball.position = Vec2::new(
                WINDOW_WIDTH / 2 - ball_bounds.width / 2,
                WINDOW_HEIGHT / 2 - ball_bounds.height / 2,
            );
            self.player1.position = Vec2::new(
                PADDLE_MARGIN,
                (WINDOW_HEIGHT - player1_bounds.height) / 2,
            );
            self.player2.position = Vec2::new(
                WINDOW_WIDTH - player2_bounds.width - PADDLE_MARGIN,
                (WINDOW_HEIGHT - player2_bounds.height) / 2,
            );
        }

        if self.ball.position.x > WINDOW_WIDTH {
            self.ball.velocity = Vec2::new(-BALL_SPEED, 0);
            self.ball.position = Vec2::new(
                WINDOW_WIDTH / 2 - ball_bounds.width / 2,
                WINDOW_HEIGHT / 2 - ball_bounds.height / 2,
            );
            self.player1.position = Vec2::new(
                PADDLE_MARGIN,
                (WINDOW_HEIGHT - player1_bounds.height) / 2,
            );
            self.player2.position = Vec2::new(
                WINDOW_WIDTH - player2_bounds.width - PADDLE_MARGIN,
                (WINDOW_HEIGHT - player2_bounds.height) / 2,
            );
        }
    }
}

/// The band a paddle can occupy: its top at most one frame's movement above
/// the window top, its bottom at most one frame's movement below the window
/// bottom. The key checks clamp against the pre-move bounds, so a single
/// move can overshoot an edge by up to [`PADDLE_SPEED`], never more.
pub open spec fn paddle_in_band(e: Entity) -> bool {
    &&& -PADDLE_SPEED <= e.position.y
    &&& e.position.y + e.height <= WINDOW_HEIGHT + PADDLE_SPEED
}

/// How far the spin delta can reach, and its sign: opposite to the centre
/// offset `diff`, and strictly so once the scaled offset reaches the paddle
/// height (below that the truncating division can flatten it to zero).
pub proof fn lemma_spin_delta_bounds(diff: int, height: int)
    requires
        height >= 1,
    ensures
        -(PADDLE_SPIN * vstd::math::abs(diff)) <= spin_delta(diff, height) <= PADDLE_SPIN
            * vstd::math::abs(diff),
        diff >= 0 ==> spin_delta(diff, height) <= 0,
        diff <= 0 ==> spin_delta(diff, height) >= 0,
        PADDLE_SPIN * diff >= height ==> spin_delta(diff, height) < 0,
        PADDLE_SPIN * -diff >= height ==> spin_delta(diff, height) > 0,
{
    if diff >= 0 {
        let p = PADDLE_SPIN * diff;
        vstd::arithmetic::div_mod::lemma_div_pos_is_pos(p, height);
        vstd::arithmetic::div_mod::lemma_div_is_ordered_by_denominator(p, 1, height);
        vstd::arithmetic::div_mod::lemma_div_basics(height);
        assert(p / 1 == p) by {
            vstd::arithmetic::div_mod::lemma_div_basics(p);
        }
        if p >= height {
            vstd::arithmetic::div_mod::lemma_div_non_zero(p, height);
        }
    } else {
        let p = PADDLE_SPIN * -diff;
        vstd::arithmetic::div_mod::lemma_div_pos_is_pos(p, height);
        vstd::arithmetic::div_mod::lemma_div_is_ordered_by_denominator(p, 1, height);
        assert(p / 1 == p) by {
            vstd::arithmetic::div_mod::lemma_div_basics(p);
        }
        if p >= height {
            vstd::arithmetic::div_mod::lemma_div_non_zero(p, height);
        }
    }
}

/// Paddle bounds law: a frame keeps each paddle inside the band — the
/// movement checks stop a paddle that is at or past an edge, and a scoring
/// reset recentres both paddles — so by induction every frame of a game
/// started inside the band (as [`initial_state`] is, for paddles no taller
/// than the window) stays inside it.
pub proof fn lemma_paddle_bounds(s: GameState, keys: Keys)
    requires
        s.wf(),
        s.player1.height <= WINDOW_HEIGHT,
        s.player2.height <= WINDOW_HEIGHT,
        paddle_in_band(s.player1),
        paddle_in_band(s.player2),
    ensures
        paddle_in_band(step(s, keys).player1),
        paddle_in_band(step(s, keys).player2),
        step(s, keys).player1.height == s.player1.height,
        step(s, keys).player2.height == s.player2.height,
{
}

/// The base of the paddle-bounds induction: a fresh game's paddles start
/// inside the band whenever they are no taller than the window.
pub proof fn lemma_initial_paddles_in_band(
    p1_width: i64,
    p1_height: i64,
    p2_width: i64,
    p2_height: i64,
    ball_width: i64,
    ball_height: i64,
)
    requires
        0 < p1_height <= WINDOW_HEIGHT,
        0 < p2_height <= WINDOW_HEIGHT,
    ensures
        paddle_in_band(
            initial_state(p1_width, p1_height, p2_width, p2_height, ball_width, ball_height).player1,
        ),
        paddle_in_band(
            initial_state(p1_width, p1_height, p2_width, p2_height, ball_width, ball_height).player2,
        ),
{
}

/// Wall reflection law: if the ball is in wall contact after the movement
/// and collision stages, and the frame does not also score, the frame
/// negates the ball's vertical velocity exactly.
pub proof fn lemma_wall_reflection(s: GameState, keys: Keys)
    requires
        s.wf(),
        wall_contact(collide_stage(s, keys).ball),
        0 <= move_stage(s, keys).ball.position.x <= WINDOW_WIDTH,
    ensures
        step(s, keys).ball.velocity.y == -collide_stage(s, keys).ball.velocity.y,
{
    if hit_detected(s, keys) {
        let m = move_stage(s, keys);
        let diff = m.player1.centre_spec().y - m.ball.centre_spec().y;
        lemma_spin_delta_bounds(diff, m.player1.height as int);
    }
}

/// Scoring reset law: if the moved ball is past the left window edge, the
/// frame ends with the ball recentred and moving left at [`BALL_SPEED`],
/// and both paddles back at their margins, vertically centred.
pub proof fn lemma_reset_determinism(s: GameState, keys: Keys)
    requires
        s.wf(),
        move_stage(s, keys).ball.position.x < 0,
    ensures
        ({
            let t = step(s, keys);
            &&& t.ball.velocity.x == -BALL_SPEED
            &&& t.ball.velocity.y == 0
            &&& t.ball.position.x == WINDOW_WIDTH / 2 - half(s.ball.width as int)
            &&& t.ball.position.y == WINDOW_HEIGHT / 2 - half(s.ball.height as int)
            &&& t.player1.position.x == PADDLE_MARGIN
            &&& t.player1.position.y == half(WINDOW_HEIGHT - s.player1.height)
            &&& t.player2.position.x == WINDOW_WIDTH - s.player2.width - PADDLE_MARGIN
            &&& t.player2.position.y == half(WINDOW_HEIGHT - s.player2.height)
        }),
{
}

/// Speed increase law: on a paddle hit in a frame that does not also score,
/// the ball's horizontal speed grows by exactly [`BALL_ACC`] and its
/// direction reverses (a resting ball is treated as moving right and leaves
/// moving left).
pub proof fn lemma_hit_speed_increase(s: GameState, keys: Keys)
    requires
        s.wf(),
        hit_detected(s, keys),
        0 <= move_stage(s, keys).ball.position.x <= WINDOW_WIDTH,
    ensures
        ({
            let v = s.ball.velocity.x as int;
            let w = step(s, keys).ball.velocity.x as int;
            &&& w == -(v + BALL_ACC * sign(v))
            &&& vstd::math::abs(w) == vstd::math::abs(v) + BALL_ACC
            &&& (v >= 0 ==> w < 0)
            &&& (v < 0 ==> w > 0)
        }),
{
}

/// Spin sign law: on a paddle hit, the collision stage adds exactly the
/// spin delta for the attributed (left) paddle to the ball's vertical
/// velocity; a ball striking above that paddle's centre is pushed upward
/// (the velocity does not grow), strictly once [`PADDLE_SPIN`] times the
/// offset reaches the paddle height, and symmetrically below.
pub proof fn lemma_spin_sign(s: GameState, keys: Keys)
    requires
        s.wf(),
        hit_detected(s, keys),
    ensures
        ({
            let m = move_stage(s, keys);
            let c = collide_stage(s, keys);
            let diff = m.player1.centre_spec().y - m.ball.centre_spec().y;
            &&& c.ball.velocity.y == m.ball.velocity.y + spin_delta(
                diff,
                m.player1.height as int,
            )
            &&& (diff > 0 ==> c.ball.velocity.y <= m.ball.velocity.y)
            &&& (diff < 0 ==> c.ball.velocity.y >= m.ball.velocity.y)
            &&& (PADDLE_SPIN * diff >= m.player1.height ==> c.ball.velocity.y
                < m.ball.velocity.y)
            &&& (PADDLE_SPIN * -diff >= m.player1.height ==> c.ball.velocity.y
                > m.ball.velocity.y)
        }),
{
    let m = move_stage(s, keys);
    let diff = m.player1.centre_spec().y - m.ball.centre_spec().y;
    lemma_spin_delta_bounds(diff, m.player1.height as int);
}

} // verus!
