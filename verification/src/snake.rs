//! The snake state machine: a fixed-capacity body buffer with an active
//! length cursor, movement by shifting, saturating growth, and
//! self-collision detection.

use vstd::prelude::*;
use crate::coord::Vector2;
use crate::coord::on_board;

verus! {

/// Capacity of the body buffer: the greatest number of active segments.
pub const CAPACITY: usize = 500;

/// How many segments a freshly spawned snake has.
pub const SPAWN_LENGTH: usize = 5;

/// The default body color: full green in 15-bit BGR.
pub const DEFAULT_COLOR: u16 = 0x03E0;

/// A snake body. Index 0 of `body` is the head; higher active indices are
/// progressively older trailing segments. Entries at index `length` and
/// beyond are stale: they keep whatever value last occupied them, and are
/// never rendered or tested for collision while stale.
pub struct Snake {
    pub body: Vec<Vector2>,
    /// Number of logically active segments.
    pub length: usize,
    /// Display color; cosmetic and mutable at runtime.
    pub color: u16,
}

impl Snake {
    /// Structural invariant: the buffer is full-sized and the active length
    /// cursor stays within `[1, CAPACITY]`.
    pub open spec fn wf(self) -> bool {
        &&& self.body@.len() == CAPACITY
        &&& 1 <= self.length <= CAPACITY
    }

    /// The logically active segments, head first.
    pub open spec fn active(self) -> Seq<Vector2> {
        self.body@.subrange(0, self.length as int)
    }

    pub open spec fn head(self) -> Vector2 {
        self.body@[0]
    }

    /// Whether some trailing active segment coincides with the head.
    pub open spec fn dead(self) -> bool {
        exists|i: int| 1 <= i < self.length && #[trigger] self.body@[i] == self.body@[0]
    }

    /// Whether `c` coincides with some active segment.
    pub open spec fn hits_active(self, c: Vector2) -> bool {
        exists|i: int| 0 <= i < self.length && #[trigger] self.body@[i] == c
    }

    /// Every buffer entry, active or stale, lies on the board.
    pub open spec fn all_on_board(self, width: int, height: int) -> bool {
        forall|i: int| 0 <= i < self.body@.len() ==> on_board(self.body@[i], width, height)
    }

    /// A freshly spawned snake: `SPAWN_LENGTH` active segments, every buffer
    /// entry placed at `center`, default color.
    pub fn new(center: Vector2) -> (s: Snake)
        ensures
            s.wf(),
            s.length == SPAWN_LENGTH,
            s.color == DEFAULT_COLOR,
            forall|i: int| 0 <= i < CAPACITY ==> s.body@[i] == center,
    {
        let mut body: Vec<Vector2> = Vec::new();
        let mut i: usize = 0;
        while i < CAPACITY
            invariant
                i <= CAPACITY,
                body@.len() == i,
                forall|j: int| 0 <= j < i ==> body@[j] == center,
            decreases CAPACITY - i,
        {
            body.push(center);
            i = i + 1;
        }
        Snake { body, length: SPAWN_LENGTH, color: DEFAULT_COLOR }
    }

    /// Moves the snake: inserts `next_head` at index 0 and shifts every other
    /// active segment one index higher, discarding the oldest active
    /// segment's value. Stale entries at index `length` and beyond are never
    /// touched.
    pub fn advance(&mut self, next_head: Vector2)
        requires
            old(self).wf(),
        ensures
            final(self).wf(),
            final(self).length == old(self).length,
            final(self).color == old(self).color,
            final(self).body@.len() == old(self).body@.len(),
            final(self).body@[0] == next_head,
            forall|i: int| 1 <= i < old(self).length ==> final(self).body@[i] == old(self).body@[i - 1],
            forall|i: int|
                old(self).length <= i < CAPACITY ==> final(self).body@[i] == old(self).body@[i],
    {
        let mut carry: Vector2 = self.body[0];
        self.body.set(0, next_head);
        let mut i: usize = 1;
        while i < self.length
            invariant
                old(self).wf(),
                self.length == old(self).length,
                self.color == old(self).color,
                self.body@.len() == CAPACITY,
                1 <= i <= self.length,
                self.body@[0] == next_head,
                carry == old(self).body@[i - 1],
                forall|j: int| 1 <= j < i ==> self.body@[j] == old(self).body@[j - 1],
                forall|j: int| i <= j < CAPACITY ==> self.body@[j] == old(self).body@[j],
            decreases self.length - i,
        {
            let next_carry: Vector2 = self.body[i];
            self.body.set(i, carry);
            carry = next_carry;
            i = i + 1;
        }
    }

    /// Grows the snake by one segment, saturating at `CAPACITY`. The buffer
    /// itself is untouched: the new tail exposes whatever stale value
    /// occupied that slot.
    pub fn grow(&mut self)
        requires
            old(self).wf(),
        ensures
            final(self).wf(),
            final(self).body@ == old(self).body@,
            final(self).color == old(self).color,
            final(self).length >= old(self).length,
            old(self).length < CAPACITY ==> final(self).length == old(self).length + 1,
            old(self).length == CAPACITY ==> final(self).length == old(self).length,
    {
        if self.length < CAPACITY {
            self.length = self.length + 1;
        }
    }

    /// Whether any trailing active segment has the same coordinate as the
    /// head. Self-collision is the sole failure condition: movement wraps at
    /// the board edges instead of ending the game.
    pub fn is_dead(&self) -> (r: bool)
        requires
            self.wf(),
        ensures
            r == self.dead(),
    {
        let head: Vector2 = self.body[0];
        let mut i: usize = 1;
        while i < self.length
            invariant
                self.wf(),
                1 <= i <= self.length,
                head == self.body@[0],
                forall|j: int| 1 <= j < i ==> #[trigger] self.body@[j] != self.body@[0],
            decreases self.length - i,
        {
            if self.body[i] == head {
                return true;
            }
            i = i + 1;
        }
        false
    }

    /// Whether `c` coincides with some active segment.
    pub fn occupies(&self, c: Vector2) -> (r: bool)
        requires
            self.wf(),
        ensures
            r == self.hits_active(c),
    {
        let mut i: usize = 0;
        while i < self.length
            invariant
                self.wf(),
                i <= self.length,
                forall|j: int| 0 <= j < i ==> self.body@[j] != c,
            decreases self.length - i,
        {
            if self.body[i] == c {
                return true;
            }
            i = i + 1;
        }
        false
    }
}

} // verus!
