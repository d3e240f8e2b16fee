//! Fruit placement by rejection sampling: draw board cells from the
//! pseudo-random source until one misses every active snake segment.
//!
//! The verifier demands that every loop terminate, so the retry loop cannot
//! be left unbounded: after a generous number of random draws the placer
//! falls back to a deterministic sweep of the board, which provably finds a
//! free cell whenever the board has more cells than the snake has segments.

use vstd::prelude::*;
use vstd::assert_by_contradiction;
use vstd::arithmetic::div_mod::lemma_fundamental_div_mod_converse;
use vstd::seq_lib::seq_to_set_is_finite;
use vstd::set_lib::lemma_int_range;
use vstd::set_lib::lemma_len_subset;
use vstd::set_lib::set_int_range;
use crate::coord::Vector2;
use crate::coord::on_board;
use crate::rng::Rng;
use crate::snake::Snake;

verus! {

/// How many random draws are tried before the deterministic sweep. Large
/// enough that the sweep is unreachable in practice: a draw misses the snake
/// with probability at least 1 - length / area.
pub const MAX_DRAWS: usize = 10000;

/// Whether some active segment of `s` sits on the cell whose row-major cell
/// id is `k` (the cell `(k % width, k / width)`).
pub open spec fn covers_cell(s: Snake, k: int, width: int) -> bool {
    exists|j: int|
        0 <= j < s.length && (#[trigger] s.body@[j]).x == k % width && s.body@[j].y == k / width
}

/// Pigeonhole: a snake with fewer active segments than the board has cells
/// leaves some board cell free.
pub proof fn lemma_free_cell_exists(s: Snake, width: i32, height: i32)
    requires
        s.wf(),
        1 <= width,
        1 <= height,
        s.length < width as int * height as int,
    ensures
        exists|c: Vector2| on_board(c, width as int, height as int) && !s.hits_active(c),
{
    broadcast use seq_to_set_is_finite;

    let w = width as int;
    let h = height as int;
    let ids = Seq::<int>::new(s.length as nat, |j: int| s.body@[j].x + w * s.body@[j].y);
    assert_by_contradiction!(
        exists|c: Vector2| on_board(c, w, h) && !s.hits_active(c),
        {
            assert forall|k: int| 0 <= k < w * h implies ids.to_set().contains(k) by {
                let kx = k % w;
                let ky = k / w;
                assert(0 <= kx < w && 0 <= ky < h && k == w * ky + kx) by (nonlinear_arith)
                    requires
                        0 <= k < w * h,
                        1 <= w,
                        1 <= h,
                        kx == k % w,
                        ky == k / w,
                ;
                let cell = Vector2 { x: kx as i32, y: ky as i32 };
                assert(on_board(cell, w, h));
                assert(s.hits_active(cell));
                let j = choose|j: int|
                    0 <= j < s.length && #[trigger] s.body@[j] == cell;
                assert(ids[j] == k);
                assert(ids.contains(k));
            }
            lemma_int_range(0, w * h);
            lemma_len_subset(set_int_range(0, w * h), ids.to_set());
            ids.lemma_cardinality_of_set();
        }
    );
}

/// Draws one candidate cell: each axis is a fresh random value reduced
/// modulo the board extent.
fn draw(rng: &mut Rng, width: i32, height: i32) -> (c: Vector2)
    requires
        1 <= width,
        1 <= height,
    ensures
        on_board(c, width as int, height as int),
{
    let x: i32 = (rng.next_u32() % (width as u32)) as i32;
    let y: i32 = (rng.next_u32() % (height as u32)) as i32;
    Vector2 { x, y }
}

/// Deterministic fallback: walks the board in row-major order and returns
/// the first cell free of the snake, which the pigeonhole argument shows
/// must exist.
fn sweep(snake: &Snake, width: i32, height: i32) -> (c: Vector2)
    requires
        snake.wf(),
        1 <= width,
        1 <= height,
        snake.length < width as int * height as int,
    ensures
        on_board(c, width as int, height as int),
        !snake.hits_active(c),
{
    let w64: u64 = width as u64;
    let h64: u64 = height as u64;
    proof {
        assert(w64 * h64 < 0x8000_0000_0000_0000) by (nonlinear_arith)
            requires
                1 <= w64 < 0x8000_0000,
                1 <= h64 < 0x8000_0000,
        ;
    }
    let total: u64 = w64 * h64;
    let mut id: u64 = 0;
    while id < total
        invariant
            snake.wf(),
            1 <= width,
            1 <= height,
            w64 == width as int,
            h64 == height as int,
            total == w64 * h64,
            0 <= id <= total,
            snake.length < total,
            forall|k: int| 0 <= k < id ==> covers_cell(*snake, k, width as int),
        decreases total - id,
    {
        proof {
            assert(id / w64 < h64) by (nonlinear_arith)
                requires
                    1 <= w64,
                    id < w64 * h64,
            ;
        }
        let x: i32 = (id % w64) as i32;
        let y: i32 = (id / w64) as i32;
        let cand = Vector2 { x, y };
        if !snake.occupies(cand) {
            return cand;
        }
        id = id + 1;
    }
    proof {
        lemma_free_cell_exists(*snake, width, height);
        let w = width as int;
        let h = height as int;
        let free = choose|c: Vector2| on_board(c, w, h) && !snake.hits_active(c);
        let kf = free.x + w * free.y;
        assert(0 <= kf < w * h) by (nonlinear_arith)
            requires
                0 <= free.x < w,
                0 <= free.y < h,
                kf == free.x + w * free.y,
        ;
        assert(on_board(free, w, h));
        assert(kf == (free.y as int) * w + free.x) by (nonlinear_arith)
            requires
                kf == free.x + w * free.y,
        ;
        lemma_fundamental_div_mod_converse(kf, w, free.y as int, free.x as int);
        assert(covers_cell(*snake, kf, w));
        let j = choose|j: int|
            0 <= j < snake.length && (#[trigger] snake.body@[j]).x == kf % w
                && snake.body@[j].y == kf / w;
        assert(snake.body@[j] == free);
        assert(false);
    }
    Vector2 { x: 0, y: 0 }
}

/// Chooses a cell not currently occupied by any active snake segment. While
/// the candidate collides with the body, both axes are redrawn and the new
/// candidate is checked against the entire active body again; after
/// `MAX_DRAWS` rejections the deterministic sweep takes over.
pub fn place(rng: &mut Rng, snake: &Snake, width: i32, height: i32) -> (c: Vector2)
    requires
        snake.wf(),
        1 <= width,
        1 <= height,
        snake.length < width as int * height as int,
    ensures
        on_board(c, width as int, height as int),
        !snake.hits_active(c),
{
    let mut c: Vector2 = draw(rng, width, height);
    let mut tries: usize = 0;
    while tries < MAX_DRAWS
        invariant
            snake.wf(),
            1 <= width,
            1 <= height,
            snake.length < width as int * height as int,
            on_board(c, width as int, height as int),
        decreases MAX_DRAWS - tries,
    {
        if !snake.occupies(c) {
            return c;
        }
        c = draw(rng, width, height);
        tries = tries + 1;
    }
    sweep(snake, width, height)
}

} // verus!
