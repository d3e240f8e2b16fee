use snake_core::coord::Vector2;
use snake_core::coord::wrap;
use snake_core::fruit::place;
use snake_core::game::GameState;
use snake_core::rng::Rng;
use snake_core::snake::Snake;
use snake_core::snake::CAPACITY;
use snake_core::snake::DEFAULT_COLOR;

#[test]
fn wrap_negative_goes_to_high_edge() {
    assert_eq!(wrap(-1, 160), 159);
    assert_eq!(wrap(-1, 7), 6);
}

#[test]
fn wrap_extent_goes_to_zero() {
    assert_eq!(wrap(160, 160), 0);
    assert_eq!(wrap(7, 7), 0);
}

#[test]
fn wrap_is_identity_in_range() {
    assert_eq!(wrap(0, 160), 0);
    assert_eq!(wrap(5, 160), 5);
    assert_eq!(wrap(159, 160), 159);
    assert_eq!(wrap(wrap(-1, 160), 160), 159);
}

#[test]
fn spawn_is_five_segments_at_center() {
    let g = GameState::new(160, 160, 99);
    assert_eq!(g.snake.length, 5);
    for i in 0..5 {
        assert_eq!(g.snake.body[i], Vector2::new(80, 80));
    }
    assert_eq!(g.snake.color, DEFAULT_COLOR);
    assert_eq!(g.dir, Vector2::new(0, 0));
    assert!(!g.x_locked && !g.y_locked);
    assert_eq!(g.frame, 0);
}

#[test]
fn fresh_snake_head_coincides_with_tail() {
    let s = Snake::new(Vector2::new(80, 80));
    assert!(s.length >= 1 && s.length <= CAPACITY);
    assert!(s.is_dead());
}

#[test]
fn advance_shifts_and_preserves_length() {
    let mut s = Snake::new(Vector2::new(80, 80));
    s.advance(Vector2::new(81, 80));
    assert_eq!(s.body[0], Vector2::new(81, 80));
    assert_eq!(s.body[1], Vector2::new(80, 80));
    assert_eq!(s.length, 5);
    assert_eq!(s.body.len(), CAPACITY);
    s.advance(Vector2::new(82, 80));
    assert_eq!(s.body[0], Vector2::new(82, 80));
    assert_eq!(s.body[1], Vector2::new(81, 80));
    assert_eq!(s.body[2], Vector2::new(80, 80));
    assert_eq!(s.length, 5);
}

#[test]
fn grow_increments_length() {
    let mut s = Snake::new(Vector2::new(80, 80));
    s.grow();
    assert_eq!(s.length, 6);
    s.grow();
    assert_eq!(s.length, 7);
}

#[test]
fn grow_saturates_at_capacity() {
    let mut s = Snake::new(Vector2::new(80, 80));
    s.length = CAPACITY;
    s.grow();
    assert_eq!(s.length, CAPACITY);
}

#[test]
fn grow_exposes_stale_slot() {
    let mut s = Snake::new(Vector2::new(80, 80));
    s.advance(Vector2::new(81, 80));
    s.grow();
    // the new tail is whatever stale value sat in the slot: the spawn center
    assert_eq!(s.length, 6);
    assert_eq!(s.body[5], Vector2::new(80, 80));
}

#[test]
fn death_when_trailing_segment_meets_head() {
    let mut s = Snake::new(Vector2::new(80, 80));
    s.body[0] = Vector2::new(10, 10);
    s.body[1] = Vector2::new(10, 11);
    s.body[2] = Vector2::new(10, 12);
    s.body[3] = Vector2::new(10, 10);
    s.body[4] = Vector2::new(10, 14);
    assert!(s.is_dead());
}

#[test]
fn alive_when_all_segments_distinct() {
    let mut s = Snake::new(Vector2::new(80, 80));
    s.body[0] = Vector2::new(10, 10);
    s.body[1] = Vector2::new(10, 11);
    s.body[2] = Vector2::new(10, 12);
    s.body[3] = Vector2::new(10, 13);
    s.body[4] = Vector2::new(10, 14);
    assert!(!s.is_dead());
}

#[test]
fn stale_segments_never_kill() {
    let mut s = Snake::new(Vector2::new(80, 80));
    s.body[0] = Vector2::new(10, 10);
    s.body[1] = Vector2::new(10, 11);
    s.body[2] = Vector2::new(10, 12);
    s.body[3] = Vector2::new(10, 13);
    s.body[4] = Vector2::new(10, 14);
    // a stale entry equal to the head must be ignored
    s.body[5] = Vector2::new(10, 10);
    assert!(!s.is_dead());
}

#[test]
fn place_returns_the_only_free_cell() {
    let mut s = Snake::new(Vector2::new(0, 0));
    s.length = 3;
    s.body[0] = Vector2::new(0, 0);
    s.body[1] = Vector2::new(0, 1);
    s.body[2] = Vector2::new(1, 0);
    let mut rng = Rng::new(424242);
    let c = place(&mut rng, &s, 2, 2);
    assert_eq!(c, Vector2::new(1, 1));
}

#[test]
fn place_misses_every_active_segment() {
    let mut s = Snake::new(Vector2::new(3, 3));
    s.body[0] = Vector2::new(0, 0);
    s.body[1] = Vector2::new(0, 1);
    s.body[2] = Vector2::new(0, 2);
    s.body[3] = Vector2::new(1, 0);
    s.body[4] = Vector2::new(1, 1);
    let mut rng = Rng::new(5);
    for _ in 0..50 {
        let c = place(&mut rng, &s, 4, 4);
        assert!(c.x >= 0 && c.x < 4 && c.y >= 0 && c.y < 4);
        for i in 0..s.length {
            assert_ne!(c, s.body[i]);
        }
    }
}

#[test]
fn first_fruit_misses_spawned_snake() {
    let g = GameState::new(160, 160, 1);
    assert_ne!(g.fruit, Vector2::new(80, 80));
    assert!(g.fruit.x >= 0 && g.fruit.x < 160 && g.fruit.y >= 0 && g.fruit.y < 160);
}

#[test]
fn rng_follows_its_congruence() {
    let mut r = Rng::new(0);
    assert_eq!(r.next_u32(), 1013904223);
    let expected = 1013904223u32.wrapping_mul(1664525).wrapping_add(1013904223);
    assert_eq!(r.next_u32(), expected);
    assert_eq!(r.state, expected);
}

#[test]
fn grow_at_capacity_leaves_body_alone() {
    let mut s = Snake::new(Vector2::new(80, 80));
    s.length = CAPACITY;
    let head_before = s.body[0];
    s.grow();
    assert_eq!(s.length, CAPACITY);
    assert_eq!(s.body[0], head_before);
    assert_eq!(s.body.len(), CAPACITY);
}

#[test]
fn same_seed_gives_same_session() {
    let a = GameState::new(160, 160, 31337);
    let b = GameState::new(160, 160, 31337);
    assert_eq!(a.fruit, b.fruit);
    assert_eq!(a.rng.state, b.rng.state);
}
