//! The game loop controller: owns the session state (snake, direction,
//! fruit, axis locks, frame counter, random source, board extents) and
//! advances it one frame at a time from sampled input values.

use vstd::prelude::*;
use crate::coord::Vector2;
use crate::coord::on_board;
use crate::coord::wrap;
use crate::coord::wrap_spec;
use crate::fruit::place;
use crate::rng::Rng;
use crate::snake::Snake;
use crate::snake::CAPACITY;
use crate::snake::DEFAULT_COLOR;
use crate::snake::SPAWN_LENGTH;

verus! {

/// The movement cadence: the snake advances once every this many frames.
pub const CADENCE: u32 = 3;

/// Colors stay within the 15-bit BGR range.
pub const COLOR_LIMIT: u16 = 0x8000;

/// The increment the cosmetic color rotation adds to each 5-bit channel.
pub const COLOR_STEP: u16 = 0x421;

/// A direction vector: one axis zero, the other in {-1, 0, +1}.
pub open spec fn unit_dir(d: Vector2) -> bool {
    (d.x == 0 && -1 <= d.y <= 1) || (d.y == 0 && -1 <= d.x <= 1)
}

/// Direction and axis locks after one round of input sampling. If the
/// horizontal input is nonzero and the horizontal axis is not locked, the
/// direction becomes purely horizontal, the horizontal axis locks and the
/// vertical axis unlocks; then the symmetric rule runs for the vertical
/// input. Once an axis is the active direction, only the other axis can
/// override it.
pub open spec fn dir_after(d: Vector2, xl: bool, yl: bool, hx: i32, vy: i32) -> (
    Vector2,
    bool,
    bool,
) {
    let h = if hx != 0 && !xl {
        ((Vector2 { x: hx, y: 0 }), true, false)
    } else {
        (d, xl, yl)
    };
    if vy != 0 && !h.2 {
        ((Vector2 { x: 0, y: vy }), false, true)
    } else {
        h
    }
}

/// The frame counter after one frame: it wraps at the end of the 32-bit
/// range.
pub open spec fn inc_frame(f: int) -> int {
    if f == 0xFFFF_FFFF {
        0
    } else {
        f + 1
    }
}

/// Whether a frame stepped from pre-increment counter value `f` moves the
/// snake: movement happens when the incremented counter is a multiple of the
/// cadence.
pub open spec fn advances(f: int) -> bool {
    inc_frame(f) % (CADENCE as int) == 0
}

/// Saturating growth of the active length.
pub open spec fn sat_inc(l: int) -> int {
    if l < CAPACITY {
        l + 1
    } else {
        l
    }
}

/// A freshly (re)initialized session: spawn-length snake with every buffer
/// entry at the board center, default color, zero direction, both axis
/// locks clear, and a fruit on the board that misses every active segment.
pub open spec fn is_fresh(g: GameState) -> bool {
    &&& g.snake.length == SPAWN_LENGTH
    &&& g.snake.color == DEFAULT_COLOR
    &&& forall|i: int|
        0 <= i < CAPACITY ==> (#[trigger] g.snake.body@[i]).x == g.width as int / 2
            && g.snake.body@[i].y == g.height as int / 2
    &&& g.dir.x == 0 && g.dir.y == 0
    &&& !g.x_locked
    &&& !g.y_locked
    &&& on_board(g.fruit, g.width as int, g.height as int)
    &&& !g.snake.hits_active(g.fruit)
}

/// One game session, exclusively owned by its control loop and reset in
/// place on death or explicit restart.
pub struct GameState {
    pub snake: Snake,
    /// Current movement direction.
    pub dir: Vector2,
    pub fruit: Vector2,
    /// Lock on the horizontal axis: set while horizontal is the active
    /// direction, cleared when the vertical axis takes over.
    pub x_locked: bool,
    pub y_locked: bool,
    /// Frame counter, incremented once per frame.
    pub frame: u32,
    pub rng: Rng,
    pub width: i32,
    pub height: i32,
}

impl GameState {
    /// Session invariant: the snake is well formed, every buffer entry and
    /// the fruit lie on the board, the board has more cells than the body
    /// buffer has slots, the direction is axis-aligned, and the color is a
    /// 15-bit value.
    pub open spec fn wf(self) -> bool {
        &&& self.snake.wf()
        &&& 1 <= self.width
        &&& 1 <= self.height
        &&& CAPACITY < self.width as int * self.height as int
        &&& self.snake.all_on_board(self.width as int, self.height as int)
        &&& on_board(self.fruit, self.width as int, self.height as int)
        &&& unit_dir(self.dir)
        &&& self.snake.color < COLOR_LIMIT
    }

    /// X coordinate of the cell the head would move to: one step in
    /// direction `d`, wrapped onto the board.
    pub open spec fn next_head_x(self, d: Vector2) -> int {
        wrap_spec(self.snake.head().x + d.x, self.width as int)
    }

    pub open spec fn next_head_y(self, d: Vector2) -> int {
        wrap_spec(self.snake.head().y + d.y, self.height as int)
    }

    /// Whether a frame stepped from this state with post-update direction
    /// `d` moves the head onto the fruit.
    pub open spec fn eats(self, d: Vector2) -> bool {
        advances(self.frame as int) && self.fruit.x == self.next_head_x(d) && self.fruit.y
            == self.next_head_y(d)
    }

    /// Active length at the end of the frame: grown once on consumption and
    /// once more on the action key, each saturating at capacity.
    pub open spec fn len_after(self, d: Vector2, action: bool) -> int {
        let l1 = if self.eats(d) {
            sat_inc(self.snake.length as int)
        } else {
            self.snake.length as int
        };
        if action {
            sat_inc(l1)
        } else {
            l1
        }
    }

    /// Buffer entry `i` after the frame's optional movement: shifted from
    /// `i - 1` over the active prefix when the frame moves, untouched
    /// otherwise and over the stale suffix.
    pub open spec fn seg_after_move(self, i: int) -> Vector2 {
        if advances(self.frame as int) && 1 <= i < self.snake.length {
            self.snake.body@[i - 1]
        } else {
            self.snake.body@[i]
        }
    }

    /// X coordinate of the head at the end of the frame.
    pub open spec fn head_after_x(self, d: Vector2) -> int {
        if advances(self.frame as int) {
            self.next_head_x(d)
        } else {
            self.snake.head().x as int
        }
    }

    pub open spec fn head_after_y(self, d: Vector2) -> int {
        if advances(self.frame as int) {
            self.next_head_y(d)
        } else {
            self.snake.head().y as int
        }
    }

    /// Whether the frame's death check fires: some trailing active segment
    /// (growth included) coincides with the head after the optional move.
    pub open spec fn dies(self, d: Vector2, action: bool) -> bool {
        exists|i: int|
            1 <= i < self.len_after(d, action) && (#[trigger] self.seg_after_move(i)).x
                == self.head_after_x(d) && self.seg_after_move(i).y == self.head_after_y(d)
    }

    /// Whether the frame ends in a full session reset: an explicit restart
    /// request, or death by self-collision.
    pub open spec fn resets(self, d: Vector2, action: bool, restart: bool) -> bool {
        restart || self.dies(d, action)
    }

    /// Starts a session: fresh snake at the board center, zero direction,
    /// clear locks, frame counter at zero, and a first fruit drawn from the
    /// seeded random source.
    pub fn new(width: i32, height: i32, seed: u32) -> (g: GameState)
        requires
            1 <= width,
            1 <= height,
            CAPACITY < width as int * height as int,
        ensures
            g.wf(),
            is_fresh(g),
            g.width == width,
            g.height == height,
            g.frame == 0,
    {
        let center = board_center(width, height);
        let snake = Snake::new(center);
        let mut rng = Rng::new(seed);
        let fruit = place(&mut rng, &snake, width, height);
        GameState {
            snake,
            dir: Vector2 { x: 0, y: 0 },
            fruit,
            x_locked: false,
            y_locked: false,
            frame: 0,
            rng,
            width,
            height,
        }
    }

    /// Applies one round of input sampling to the direction and the axis
    /// locks; nothing else changes.
    pub fn update_direction(&mut self, hx: i32, vy: i32)
        requires
            old(self).wf(),
            -1 <= hx <= 1,
            -1 <= vy <= 1,
        ensures
            final(self).wf(),
            (final(self).dir, final(self).x_locked, final(self).y_locked) == dir_after(
                old(self).dir,
                old(self).x_locked,
                old(self).y_locked,
                hx,
                vy,
            ),
            final(self).snake == old(self).snake,
            final(self).fruit == old(self).fruit,
            final(self).frame == old(self).frame,
            final(self).rng == old(self).rng,
            final(self).width == old(self).width,
            final(self).height == old(self).height,
    {
        if hx != 0 && !self.x_locked {
            self.dir = Vector2 { x: hx, y: 0 };
            self.x_locked = true;
            self.y_locked = false;
        }
        if vy != 0 && !self.y_locked {
            self.dir = Vector2 { x: 0, y: vy };
            self.y_locked = true;
            self.x_locked = false;
        }
    }

    /// Reinitializes the session in place: fresh snake at the board center,
    /// zero direction, cleared axis locks, and a freshly placed fruit. The
    /// frame counter and the board extents are kept.
    pub fn reset(&mut self)
        requires
            old(self).wf(),
        ensures
            final(self).wf(),
            is_fresh(*final(self)),
            final(self).frame == old(self).frame,
            final(self).width == old(self).width,
            final(self).height == old(self).height,
    {
        let center = board_center(self.width, self.height);
        self.snake = Snake::new(center);
        self.dir = Vector2 { x: 0, y: 0 };
        self.x_locked = false;
        self.y_locked = false;
        let mut r = self.rng;
        let fruit = place(&mut r, &self.snake, self.width, self.height);
        self.rng = r;
        self.fruit = fruit;
    }

    /// Advances the session by one frame, in order: input-driven direction
    /// update with axis locking; frame counter increment; on cadence frames
    /// a head move with wrap-around, with growth and fruit replacement on
    /// consumption; growth and color rotation on the action key; and a full
    /// in-place reset on an explicit restart request or on death by
    /// self-collision.
    pub fn step(&mut self, hx: i32, vy: i32, action: bool, restart: bool)
        requires
            old(self).wf(),
            -1 <= hx <= 1,
            -1 <= vy <= 1,
        ensures
            final(self).wf(),
            final(self).width == old(self).width,
            final(self).height == old(self).height,
            final(self).frame as int == inc_frame(old(self).frame as int),
            ({
                let du = dir_after(old(self).dir, old(self).x_locked, old(self).y_locked, hx, vy);
                old(self).resets(du.0, action, restart) ==> is_fresh(*final(self))
            }),
            ({
                let du = dir_after(old(self).dir, old(self).x_locked, old(self).y_locked, hx, vy);
                !old(self).resets(du.0, action, restart) ==> {
                    &&& final(self).dir == du.0
                    &&& final(self).x_locked == du.1
                    &&& final(self).y_locked == du.2
                    &&& final(self).snake.length == old(self).len_after(du.0, action)
                    &&& final(self).snake.body@[0].x == old(self).head_after_x(du.0)
                    &&& final(self).snake.body@[0].y == old(self).head_after_y(du.0)
                    &&& forall|i: int|
                        1 <= i < CAPACITY ==> (#[trigger] final(self).snake.body@[i])
                            == old(self).seg_after_move(i)
                    &&& final(self).snake.color as int == if action {
                        (old(self).snake.color + COLOR_STEP) % (COLOR_LIMIT as int)
                    } else {
                        old(self).snake.color as int
                    }
                    &&& old(self).eats(du.0) ==> forall|i: int|
                        0 <= i < sat_inc(old(self).snake.length as int)
                            ==> (#[trigger] final(self).snake.body@[i]) != final(self).fruit
                    &&& !old(self).eats(du.0) ==> final(self).fruit == old(self).fruit
                }
            }),
    {
        let ghost g0 = *old(self);
        self.update_direction(hx, vy);
        let ghost du = dir_after(g0.dir, g0.x_locked, g0.y_locked, hx, vy);
        self.frame = if self.frame == 0xFFFF_FFFF {
            0
        } else {
            self.frame + 1
        };
        if self.frame % CADENCE == 0 {
            proof {
                assert(on_board(self.snake.body@[0], self.width as int, self.height as int));
            }
            let head = self.snake.body[0];
            let nx = wrap(head.x + self.dir.x, self.width);
            let ny = wrap(head.y + self.dir.y, self.height);
            let nh = Vector2 { x: nx, y: ny };
            self.snake.advance(nh);
            if nx == self.fruit.x && ny == self.fruit.y {
                self.snake.grow();
                let mut r = self.rng;
                let f = place(&mut r, &self.snake, self.width, self.height);
                self.rng = r;
                self.fruit = f;
            }
        }
        if action {
            self.snake.grow();
            self.snake.color = rotate_color(self.snake.color);
        }
        proof {
            assert forall|i: int|
                0 <= i < CAPACITY implies on_board(
                #[trigger] self.snake.body@[i],
                self.width as int,
                self.height as int,
            ) by {
                if advances(g0.frame as int) && 1 <= i < g0.snake.length {
                    assert(on_board(g0.snake.body@[i - 1], g0.width as int, g0.height as int));
                } else if i > 0 {
                    assert(on_board(g0.snake.body@[i], g0.width as int, g0.height as int));
                }
            }
        }
        let dead = self.snake.is_dead();
        proof {
            if dead {
                let i = choose|i: int|
                    1 <= i < self.snake.length && #[trigger] self.snake.body@[i]
                        == self.snake.body@[0];
                assert(g0.seg_after_move(i).x == g0.head_after_x(du.0) && g0.seg_after_move(i).y
                    == g0.head_after_y(du.0));
                assert(g0.dies(du.0, action));
            }
            if g0.dies(du.0, action) {
                let i = choose|i: int|
                    1 <= i < g0.len_after(du.0, action) && (#[trigger] g0.seg_after_move(i)).x
                        == g0.head_after_x(du.0) && g0.seg_after_move(i).y == g0.head_after_y(du.0);
                assert(self.snake.body@[i] == self.snake.body@[0]);
                assert(self.snake.dead());
            }
            assert(dead == g0.dies(du.0, action));
        }
        if restart || dead {
            self.reset();
        }
    }
}

/// The exact center cell of the board.
fn board_center(width: i32, height: i32) -> (c: Vector2)
    requires
        1 <= width,
        1 <= height,
    ensures
        c.x == width as int / 2,
        c.y == height as int / 2,
        on_board(c, width as int, height as int),
{
    let cx: i32 = ((width as u64) / 2) as i32;
    let cy: i32 = ((height as u64) / 2) as i32;
    Vector2 { x: cx, y: cy }
}

/// One step of the cosmetic color rotation: adds one to each 5-bit channel,
/// wrapping within the 15-bit range.
fn rotate_color(c: u16) -> (r: u16)
    requires
        c < COLOR_LIMIT,
    ensures
        r as int == (c + COLOR_STEP) % (COLOR_LIMIT as int),
        r < COLOR_LIMIT,
{
    (c + COLOR_STEP) % COLOR_LIMIT
}

/// How many of `n` consecutive frames, stepped from pre-increment counter
/// value `f`, move the snake.
pub open spec fn moves_among(f: int, n: nat) -> nat
    decreases n,
{
    if n == 0 {
        0
    } else {
        moves_among(f, (n - 1) as nat) + if advances(f + n - 1) {
            1nat
        } else {
            0nat
        }
    }
}

/// Movement cadence law: across nine consecutive frames (the counter
/// staying clear of its wrap-around) the snake advances exactly three
/// times. Each advancing frame moves the head by exactly one wrapped cell
/// in the current direction, by the contract of `step`.
pub proof fn lemma_cadence_nine(f: int)
    requires
        0 <= f,
        f + 9 <= 0xFFFF_FFFF,
    ensures
        moves_among(f, 9) == 3,
{
    reveal_with_fuel(moves_among, 10);
}

/// Axis-lock law: while the horizontal axis is locked, nonzero horizontal
/// input alone leaves direction and locks unchanged, while nonzero vertical
/// input takes over the direction, locks the vertical axis and clears the
/// horizontal one.
pub proof fn lemma_axis_lock(d: Vector2, yl: bool, hx: i32, vy: i32)
    requires
        -1 <= hx <= 1,
        -1 <= vy <= 1,
    ensures
        vy == 0 ==> dir_after(d, true, yl, hx, vy) == (d, true, yl),
        vy != 0 && !yl ==> dir_after(d, true, yl, hx, vy) == ((Vector2 { x: 0, y: vy }), false, true),
{
}

} // verus!
