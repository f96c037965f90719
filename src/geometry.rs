//! Grid positions, pixel coordinates and compass directions.
use vstd::prelude::*;

verus! {

/// Number of fixed-point units in one pixel: coordinates are in tenths of a pixel.
pub const SUBPIXELS_PER_PIXEL: i64 = 10;

/// Side of one grid cell in tenths of a pixel (twelve pixels).
pub const BLOCK_SIZE: i64 = 120;

/// A four-valued compass direction.
#[derive(Clone, Copy, Debug, PartialEq, Eq, Structural)]
pub enum Direction {
    Up,
    Down,
    Left,
    Right,
}

/// The direction that points the other way.
pub open spec fn opposite_of(d: Direction) -> Direction {
    match d {
        Direction::Up => Direction::Down,
        Direction::Down => Direction::Up,
        Direction::Left => Direction::Right,
        Direction::Right => Direction::Left,
    }
}

impl Direction {
    pub fn opposite(&self) -> (r: Direction)
        ensures
            r == opposite_of(*self),
            opposite_of(r) == *self,
    {
        match self {
            Direction::Up => Direction::Down,
            Direction::Down => Direction::Up,
            Direction::Left => Direction::Right,
            Direction::Right => Direction::Left,
        }
    }
}

/// Turning around twice faces the original way.
pub proof fn lemma_opposite_involutive(d: Direction)
    ensures
        opposite_of(opposite_of(d)) == d,
{
}

/// A grid cell, as (column, row).
#[derive(Clone, Copy, Debug, PartialEq, Eq, Structural)]
pub struct Position(pub u32, pub u32);

/// A pixel coordinate (x, y), each in tenths of a pixel.
#[derive(Clone, Copy, Debug, PartialEq, Eq, Structural)]
pub struct Coord(pub i64, pub i64);

/// Pixel offset, in tenths of a pixel, of the edge of cell `n`.
pub open spec fn cell_to_subpixels(n: int) -> int {
    n * (BLOCK_SIZE as int)
}

/// The cell that holds offset `t` (tenths of a pixel): the quotient by the cell
/// size, rounded toward zero and held to the range of `u32`.
pub open spec fn subpixels_to_cell(t: int) -> int {
    if t < 0 {
        0
    } else if t / (BLOCK_SIZE as int) > u32::MAX {
        u32::MAX as int
    } else {
        t / (BLOCK_SIZE as int)
    }
}

/// `v` held to the range of `u32`.
pub open spec fn clamp_to_cell(v: int) -> int {
    if v < 0 {
        0
    } else if v > u32::MAX {
        u32::MAX as int
    } else {
        v
    }
}

/// The top-left pixel corner of grid cell `p`.
pub open spec fn coord_of(p: Position) -> Coord {
    Coord(cell_to_subpixels(p.0 as int) as i64, cell_to_subpixels(p.1 as int) as i64)
}

/// The grid cell that holds pixel coordinate `c`.
pub open spec fn position_of(c: Coord) -> Position {
    Position(subpixels_to_cell(c.0 as int) as u32, subpixels_to_cell(c.1 as int) as u32)
}

/// Converting a cell to pixels and back gives the same cell.
pub proof fn lemma_coord_round_trip(p: Position)
    ensures
        position_of(coord_of(p)) == p,
{
    lemma_axis_round_trip(p.0 as int);
    lemma_axis_round_trip(p.1 as int);
}

proof fn lemma_axis_round_trip(n: int)
    requires
        0 <= n <= u32::MAX,
    ensures
        cell_to_subpixels(n) as i64 == cell_to_subpixels(n),
        subpixels_to_cell(cell_to_subpixels(n)) == n,
{
    assert((n * 120) / 120 == n) by (nonlinear_arith);
}

fn subpixels_to_cell_exec(t: i64) -> (r: u32)
    ensures
        r == subpixels_to_cell(t as int),
{
    if t < 0 {
        0
    } else {
        let q: i64 = t / BLOCK_SIZE;
        if q > u32::MAX as i64 {
            u32::MAX
        } else {
            q as u32
        }
    }
}

fn clamp_to_cell_exec(v: i64) -> (r: u32)
    ensures
        r == clamp_to_cell(v as int),
{
    if v < 0 {
        0
    } else if v > u32::MAX as i64 {
        u32::MAX
    } else {
        v as u32
    }
}

impl Position {
    pub fn new(columns: u32, rows: u32) -> (r: Position)
        ensures
            r == Position(columns, rows),
    {
        Position(columns, rows)
    }

    /// The top-left pixel corner of this cell.
    pub fn to_coord(&self) -> (r: Coord)
        ensures
            r == coord_of(*self),
            r.0 == self.0 * BLOCK_SIZE,
            r.1 == self.1 * BLOCK_SIZE,
    {
        let x: i64 = self.0 as i64 * BLOCK_SIZE;
        let y: i64 = self.1 as i64 * BLOCK_SIZE;
        Coord(x, y)
    }

    /// This cell moved by a signed number of columns and rows. A component that
    /// would fall below zero stops at zero; one that would pass `u32::MAX`
    /// stops there.
    pub fn shifted_by(&self, columns: i32, rows: i32) -> (r: Position)
        ensures
            r.0 == clamp_to_cell(self.0 + columns),
            r.1 == clamp_to_cell(self.1 + rows),
            0 <= self.0 + columns <= u32::MAX ==> r.0 == self.0 + columns,
            0 <= self.1 + rows <= u32::MAX ==> r.1 == self.1 + rows,
    {
        let c: i64 = self.0 as i64 + columns as i64;
        let r: i64 = self.1 as i64 + rows as i64;
        Position(clamp_to_cell_exec(c), clamp_to_cell_exec(r))
    }
}

impl Coord {
    pub fn new(x: i64, y: i64) -> (r: Coord)
        ensures
            r == Coord(x, y),
    {
        Coord(x, y)
    }

    /// The grid cell that holds this coordinate. Negative components fall in
    /// cell zero; a cell past `u32::MAX` is held at `u32::MAX`.
    pub fn to_position(&self) -> (r: Position)
        ensures
            r == position_of(*self),
    {
        Position(subpixels_to_cell_exec(self.0), subpixels_to_cell_exec(self.1))
    }

    /// The components as an `[x, y]` pair.
    pub fn as_array(&self) -> (r: [i64; 2])
        ensures
            r@ == seq![self.0, self.1],
    {
        [self.0, self.1]
    }
}

} // verus!
