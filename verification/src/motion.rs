//! Position updates from the held directions, facing-row selection, and the
//! resolution scale factor for the renderer.

use vstd::prelude::*;
use crate::input::Direction;

verus! {

/// Width of the base (reference) resolution, in pixels.
pub const BASE_WIDTH: u32 = 800;

/// Height of the base (reference) resolution, in pixels.
pub const BASE_HEIGHT: u32 = 600;

/// A 2D position in world units. No bounds are enforced here; clamping, if
/// any, is the caller's concern.
#[derive(Clone, Copy, Debug, PartialEq, Eq, Structural)]
pub struct Position {
    pub x: i64,
    pub y: i64,
}

/// The sprite-sheet row that matches the current facing. The sheet stacks
/// one row per facing; `Idle` is the default row.
#[derive(Clone, Copy, Debug, PartialEq, Eq, Structural)]
pub enum AnimationRow {
    Idle,
    Up,
    Left,
    Right,
}

/// The net horizontal movement for one tick: `speed` to the right per held
/// `right` flag and to the left per held `left` flag, applied independently,
/// so opposing holds cancel exactly.
pub open spec fn x_delta(d: Direction, speed: i64) -> int {
    (if d.right {
        speed as int
    } else {
        0
    }) - (if d.left {
        speed as int
    } else {
        0
    })
}

/// The net vertical movement for one tick: down is the positive axis, up the
/// negative, each held flag contributing `speed` independently.
pub open spec fn y_delta(d: Direction, speed: i64) -> int {
    (if d.down {
        speed as int
    } else {
        0
    }) - (if d.up {
        speed as int
    } else {
        0
    })
}

impl Default for Position {
    /// A fresh entity stands at the origin.
    fn default() -> (p: Position)
        ensures
            p == (Position { x: 0, y: 0 }),
    {
        Position { x: 0, y: 0 }
    }
}

impl Position {
    /// One simulation tick of movement: each held directional flag applies
    /// its per-axis delta of `speed` world units. Held opposite flags both
    /// apply and cancel to exactly zero on their axis — a consequence of
    /// independent per-flag application, not a special case.
    pub fn advance_position(&mut self, d: &Direction, speed: i64)
        requires
            0 <= speed,
            i64::MIN <= old(self).x + x_delta(*d, speed) <= i64::MAX,
            i64::MIN <= old(self).y + y_delta(*d, speed) <= i64::MAX,
        ensures
            final(self).x == old(self).x + x_delta(*d, speed),
            final(self).y == old(self).y + y_delta(*d, speed),
    {
        let dx: i64 = (if d.right {
            speed
        } else {
            0
        }) - (if d.left {
            speed
        } else {
            0
        });
        let dy: i64 = (if d.down {
            speed
        } else {
            0
        }) - (if d.up {
            speed
        } else {
            0
        });
        self.x = self.x + dx;
        self.y = self.y + dy;
    }
}

/// Opposing holds cancel exactly: with both flags of an axis held, the tick
/// leaves that coordinate unchanged, whatever the speed.
pub proof fn lemma_opposing_flags_cancel(d: Direction, speed: i64)
    ensures
        d.up && d.down ==> y_delta(d, speed) == 0,
        d.left && d.right ==> x_delta(d, speed) == 0,
{
}

/// The facing row for a set of held directions, by fixed priority: `up`
/// wins over `left`, which wins over `right`; everything else — `down`
/// alone included — falls to the idle row. That `down` never selects a row
/// of its own mirrors the asymmetric three-rows-plus-default sheet layout.
pub open spec fn spec_select_animation_row(d: Direction) -> AnimationRow {
    if d.up {
        AnimationRow::Up
    } else if d.left {
        AnimationRow::Left
    } else if d.right {
        AnimationRow::Right
    } else {
        AnimationRow::Idle
    }
}

/// Picks the sprite-sheet row for the currently held directions.
pub fn select_animation_row(d: &Direction) -> (row: AnimationRow)
    ensures
        row == spec_select_animation_row(*d),
{
    if d.up {
        AnimationRow::Up
    } else if d.left {
        AnimationRow::Left
    } else if d.right {
        AnimationRow::Right
    } else {
        AnimationRow::Idle
    }
}

impl AnimationRow {
    /// The row's index from the top of the sprite sheet.
    pub open spec fn spec_row_index(self) -> u64 {
        match self {
            AnimationRow::Idle => 0,
            AnimationRow::Up => 1,
            AnimationRow::Left => 2,
            AnimationRow::Right => 3,
        }
    }

    /// The row's index from the top of the sprite sheet; the renderer turns
    /// it into a vertical source offset of `index / 4` of the sheet.
    pub fn row_index(&self) -> (i: u64)
        ensures
            i == self.spec_row_index(),
    {
        match self {
            AnimationRow::Idle => 0,
            AnimationRow::Up => 1,
            AnimationRow::Left => 2,
            AnimationRow::Right => 3,
        }
    }
}

/// `a / b` rounded to the nearest whole number, halves rounding up, written
/// over integers: the floor of `(2a + b) / 2b`.
pub open spec fn round_div(a: nat, b: nat) -> nat
    recommends
        0 < b,
{
    (2 * a + b) / (2 * b)
}

/// `round_div(a, b)` is the whole number nearest to the exact ratio
/// `a / b`, halves rounding up: the rounding error `a - q * b` lies in
/// `[-b/2, b/2)`.
pub proof fn lemma_round_div_is_nearest(a: nat, b: nat)
    requires
        0 < b,
    ensures
        -(b as int) <= 2 * (a as int - (round_div(a, b) as int) * (b as int)),
        2 * (a as int - (round_div(a, b) as int) * (b as int)) < b as int,
{
    let q = round_div(a, b) as int;
    let r = (2 * a + b) as int % (2 * b) as int;
    vstd::arithmetic::div_mod::lemma_fundamental_div_mod(
        (2 * a + b) as int,
        (2 * b) as int,
    );
    vstd::arithmetic::div_mod::lemma_mod_bound((2 * a + b) as int, (2 * b) as int);
    assert(2 * (a as int) + b == 2 * (b as int) * q + r);
    assert(2 * (a as int - q * (b as int)) == r - b) by (nonlinear_arith)
        requires
            2 * (a as int) + b == 2 * (b as int) * q + r,
    ;
}

/// The per-axis scale factor between a window resolution and the base
/// resolution: each axis's ratio rounded to the nearest whole number. At the
/// base resolution itself the factors are 1.
pub fn get_scaled_resolution(width: u32, height: u32) -> (scale: (u32, u32))
    ensures
        scale.0 == round_div(width as nat, BASE_WIDTH as nat),
        scale.1 == round_div(height as nat, BASE_HEIGHT as nat),
{
    let sx: u64 = (2 * (width as u64) + (BASE_WIDTH as u64)) / (2 * (BASE_WIDTH as u64));
    let sy: u64 = (2 * (height as u64) + (BASE_HEIGHT as u64)) / (2 * (BASE_HEIGHT as u64));
    assert(sx <= u32::MAX && sy <= u32::MAX) by {
        assert(sx <= (2 * (width as u64) + (BASE_WIDTH as u64)) / 2) by {
            vstd::arithmetic::div_mod::lemma_div_is_ordered_by_denominator(
                2 * (width as int) + (BASE_WIDTH as int),
                2,
                2 * (BASE_WIDTH as int),
            );
        }
        assert(sy <= (2 * (height as u64) + (BASE_HEIGHT as u64)) / 2) by {
            vstd::arithmetic::div_mod::lemma_div_is_ordered_by_denominator(
                2 * (height as int) + (BASE_HEIGHT as int),
                2,
                2 * (BASE_HEIGHT as int),
            );
        }
    }
    (sx as u32, sy as u32)
}

} // verus!
