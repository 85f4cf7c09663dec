//! Where the keys of the YIVU40 sit.
//!
//! The board has two halves of three rows and a thumb row each. The keymap
//! addresses them as eight rows of seven columns: rows 0 to 3 are the left
//! half from the outer edge inwards, rows 4 to 7 the right half, again from
//! its outer edge inwards, so that its columns run from right to left.

use vstd::prelude::*;

verus! {

/// Width of an ordinary key, in pixels.
pub const KEY_WIDTH: u32 = 78;

/// Height of every key, in pixels.
pub const KEY_HEIGHT: u32 = 60;

/// Width of the wide thumb keys: one and a half ordinary keys.
pub const WIDE_KEY_WIDTH: u32 = 117;

/// Distance between the left edges of neighbouring columns: a key and the
/// gap of four pixels beside it.
pub const PITCH_X: i32 = 82;

/// Distance between the top edges of neighbouring rows: a key and the gap
/// of four pixels below it.
pub const PITCH_Y: i32 = 64;

/// Extra space on each side of the innermost column.
pub const INNER_GAP: i32 = 15;

/// The place of one key on the canvas.
#[derive(Clone, Copy, Debug, PartialEq, Eq, Structural)]
pub struct KeyPosition {
    /// Left edge.
    pub x: i32,
    /// Top edge.
    pub y: i32,
    pub width: u32,
    pub height: u32,
    /// Reserved for turned thumb keys; every key of this board has 0.
    pub rotation: i32,
}

/// A grid of key places by row and column; `None` where the board has no key.
pub type KeyGrid = Seq<Seq<Option<KeyPosition>>>;

/// The grid that the rows of `rows` hold.
pub open spec fn grid_view(rows: Seq<Vec<Option<KeyPosition>>>) -> KeyGrid {
    Seq::new(rows.len(), |r: int| rows[r]@)
}

/// Whether a key can be drawn at `pos`: it is at least three pixels wide and
/// high, so that something is left inside its border, and its width, its
/// height and its far edges are `i32` numbers.
pub open spec fn paintable(pos: KeyPosition) -> bool {
    &&& 3 <= pos.width <= i32::MAX
    &&& 3 <= pos.height <= i32::MAX
    &&& pos.x + pos.width <= i32::MAX
    &&& pos.y + pos.height <= i32::MAX
}

/// Whether every key of `grid` can be drawn.
pub open spec fn grid_paintable(grid: KeyGrid) -> bool {
    forall|r: int, c: int|
        0 <= r < grid.len() && 0 <= c < grid[r].len() && (#[trigger] grid[r][c]) is Some
            ==> paintable(grid[r][c]->0)
}

/// How far the left edge of the key at `(row, col)` lies from the left
/// margin, for the places that hold a key. In the left half the columns run
/// outwards in; in the right half they run the other way, beyond the inner
/// columns of both halves.
pub open spec fn key_left(row: int, col: int) -> int {
    let thumb = row % 4 == 3;
    if row < 4 {
        if col == 6 {
            PITCH_X * 6 + INNER_GAP
        } else if thumb {
            PITCH_X * (col - 1)
        } else {
            PITCH_X * col
        }
    } else {
        if col == 6 {
            PITCH_X * 8 + INNER_GAP
        } else if thumb && col == 5 {
            PITCH_X * 9 + 2 * INNER_GAP - (WIDE_KEY_WIDTH - KEY_WIDTH)
        } else {
            PITCH_X * (14 - col) + 2 * INNER_GAP
        }
    }
}

/// Whether the board has a key at `(row, col)`. The three main rows of each
/// half have six keys, the upper two a seventh on the inside; each thumb row
/// has three keys, in columns 3 to 5.
pub open spec fn has_key(row: int, col: int) -> bool {
    &&& 0 <= row < 8
    &&& 0 <= col < 7
    &&& if row % 4 == 3 {
        3 <= col <= 5
    } else if row % 4 == 2 {
        col <= 5
    } else {
        true
    }
}

/// The place of the key at `(row, col)` with `margin` pixels left free at
/// the left and at the top. The innermost thumb key of each half is wide.
pub open spec fn key_cell(margin: int, row: int, col: int) -> Option<KeyPosition> {
    if has_key(row, col) {
        Some(
            KeyPosition {
                x: (margin + key_left(row, col)) as i32,
                y: (margin + PITCH_Y * (row % 4)) as i32,
                width: if row % 4 == 3 && col == 5 {
                    WIDE_KEY_WIDTH
                } else {
                    KEY_WIDTH
                },
                height: KEY_HEIGHT,
                rotation: 0,
            },
        )
    } else {
        None
    }
}

/// The whole grid: eight rows of seven places.
pub open spec fn key_grid(margin: int) -> KeyGrid {
    Seq::new(8, |r: int| Seq::new(7, |c: int| key_cell(margin, r, c)))
}

/// An ordinary key with its top-left corner at `(x, y)`.
fn key(x: i32, y: i32) -> (cell: Option<KeyPosition>)
    ensures
        cell == Some(
            KeyPosition { x, y, width: KEY_WIDTH, height: KEY_HEIGHT, rotation: 0 },
        ),
{
    Some(KeyPosition { x, y, width: KEY_WIDTH, height: KEY_HEIGHT, rotation: 0 })
}

/// A wide thumb key with its top-left corner at `(x, y)`.
fn wide_key(x: i32, y: i32) -> (cell: Option<KeyPosition>)
    ensures
        cell == Some(
            KeyPosition { x, y, width: WIDE_KEY_WIDTH, height: KEY_HEIGHT, rotation: 0 },
        ),
{
    Some(KeyPosition { x, y, width: WIDE_KEY_WIDTH, height: KEY_HEIGHT, rotation: 0 })
}

/// The key places of the board, with `margin` pixels left free at the left
/// and at the top.
pub fn get_key_positions(margin: u16) -> (grid: Vec<Vec<Option<KeyPosition>>>)
    ensures
        grid_view(grid@) == key_grid(margin as int),
        grid_paintable(grid_view(grid@)),
{
    let m: i32 = margin as i32;
    let ux: i32 = PITCH_X;
    let uy: i32 = PITCH_Y;
    let left_top = vec![
        key(m, m),
        key(m + ux, m),
        key(m + ux * 2, m),
        key(m + ux * 3, m),
        key(m + ux * 4, m),
        key(m + ux * 5, m),
        key(m + ux * 6 + 15, m),
    ];
    let left_home = vec![
        key(m, m + uy),
        key(m + ux, m + uy),
        key(m + ux * 2, m + uy),
        key(m + ux * 3, m + uy),
        key(m + ux * 4, m + uy),
        key(m + ux * 5, m + uy),
        key(m + ux * 6 + 15, m + uy),
    ];
    let left_bottom = vec![
        key(m, m + uy * 2),
        key(m + ux, m + uy * 2),
        key(m + ux * 2, m + uy * 2),
        key(m + ux * 3, m + uy * 2),
        key(m + ux * 4, m + uy * 2),
        key(m + ux * 5, m + uy * 2),
        None,
    ];
    let left_thumb = vec![
        None,
        None,
        None,
        key(m + ux * 2, m + uy * 3),
        key(m + ux * 3, m + uy * 3),
        wide_key(m + ux * 4, m + uy * 3),
        None,
    ];
    let right_top = vec![
        key(m + ux * 14 + 30, m),
        key(m + ux * 13 + 30, m),
        key(m + ux * 12 + 30, m),
        key(m + ux * 11 + 30, m),
        key(m + ux * 10 + 30, m),
        key(m + ux * 9 + 30, m),
        key(m + ux * 8 + 15, m),
    ];
    let right_home = vec![
        key(m + ux * 14 + 30, m + uy),
        key(m + ux * 13 + 30, m + uy),
        key(m + ux * 12 + 30, m + uy),
        key(m + ux * 11 + 30, m + uy),
        key(m + ux * 10 + 30, m + uy),
        key(m + ux * 9 + 30, m + uy),
        key(m + ux * 8 + 15, m + uy),
    ];
    let right_bottom = vec![
        key(m + ux * 14 + 30, m + uy * 2),
        key(m + ux * 13 + 30, m + uy * 2),
        key(m + ux * 12 + 30, m + uy * 2),
        key(m + ux * 11 + 30, m + uy * 2),
        key(m + ux * 10 + 30, m + uy * 2),
        key(m + ux * 9 + 30, m + uy * 2),
        None,
    ];
    let right_thumb = vec![
        None,
        None,
        None,
        key(m + ux * 11 + 30, m + uy * 3),
        key(m + ux * 10 + 30, m + uy * 3),
        wide_key(m + ux * 9 + 30 - 39, m + uy * 3),
        None,
    ];
    proof {
        assert(left_top@ =~= key_grid(margin as int)[0]);
        assert(left_home@ =~= key_grid(margin as int)[1]);
        assert(left_bottom@ =~= key_grid(margin as int)[2]);
        assert(left_thumb@ =~= key_grid(margin as int)[3]);
        assert(right_top@ =~= key_grid(margin as int)[4]);
        assert(right_home@ =~= key_grid(margin as int)[5]);
        assert(right_bottom@ =~= key_grid(margin as int)[6]);
        assert(right_thumb@ =~= key_grid(margin as int)[7]);
    }
    let grid = vec![
        left_top,
        left_home,
        left_bottom,
        left_thumb,
        right_top,
        right_home,
        right_bottom,
        right_thumb,
    ];
    proof {
        assert(grid_view(grid@) =~= key_grid(margin as int));
        lemma_key_grid_paintable(margin as int);
    }
    grid
}

/// Every key of the board can be drawn, whatever the margin that a `u16`
/// can hold.
pub proof fn lemma_key_grid_paintable(margin: int)
    requires
        0 <= margin <= u16::MAX,
    ensures
        grid_paintable(key_grid(margin)),
{
    assert forall|r: int, c: int|
        0 <= r < key_grid(margin).len() && 0 <= c < key_grid(margin)[r].len() && (
        #[trigger] key_grid(margin)[r][c]) is Some implies paintable(key_grid(margin)[r][c]->0) by {
        assert(key_grid(margin)[r][c] == key_cell(margin, r, c));
        assert(0 <= key_left(r, c) <= 1300);
    }
}

/// The outer three places of the left thumb row hold no key, whatever the
/// margin: the thumb keys sit below the inner columns.
pub proof fn lemma_left_thumb_outer_places_empty(margin: int)
    ensures
        key_grid(margin)[3][0] is None,
        key_grid(margin)[3][1] is None,
        key_grid(margin)[3][2] is None,
{
}

} // verus!
