//! Drawable blocks and the primitives that draw them.
//!
//! Drawing itself happens on a graphics surface outside this library: each
//! function here returns the primitive to issue, with its geometry in tenths of
//! a pixel, and the caller hands it to the surface.
use vstd::prelude::*;
use crate::geometry::{coord_of, Coord, Direction, Position, BLOCK_SIZE};

verus! {

/// Side of one eye in tenths of a pixel: a fifth of a cell.
pub const EYE_SIZE: i64 = 24;

/// What a block looks like.
#[derive(Clone, Copy, Debug, PartialEq, Eq, Structural)]
pub enum Shape {
    Square,
    Circle,
    Triangle,
}

/// An axis-aligned rectangle: top-left corner and size, in tenths of a pixel.
#[derive(Clone, Copy, Debug, PartialEq, Eq, Structural)]
pub struct Rect {
    pub x: i64,
    pub y: i64,
    pub width: i64,
    pub height: i64,
}

/// One filled primitive to draw.
#[derive(Clone, Copy, Debug, PartialEq, Eq)]
pub enum Primitive {
    /// A rectangle filling the bounds.
    Rectangle(Rect),
    /// An ellipse inscribed in the bounds.
    Ellipse(Rect),
    /// A convex polygon through the given vertices.
    Polygon([Coord; 3]),
}

/// A drawable unit: a grid cell and the shape drawn in it.
#[derive(Clone, Copy, Debug)]
pub struct Block {
    position: Position,
    shape: Shape,
}

/// The pixel bounds of grid cell `p`.
pub open spec fn cell_rect(p: Position) -> Rect {
    let c = coord_of(p);
    Rect { x: c.0, y: c.1, width: BLOCK_SIZE, height: BLOCK_SIZE }
}

/// The right triangle that fills the lower-right half of cell `p`: its
/// vertices are the cell's three corners other than the top-left one.
pub open spec fn cell_triangle(p: Position) -> [Coord; 3] {
    let c = coord_of(p);
    [
        Coord((c.0 + BLOCK_SIZE) as i64, c.1),
        Coord(c.0, (c.1 + BLOCK_SIZE) as i64),
        Coord((c.0 + BLOCK_SIZE) as i64, (c.1 + BLOCK_SIZE) as i64),
    ]
}

/// The primitive that draws shape `s` in cell `p`.
pub open spec fn shape_primitive(p: Position, s: Shape) -> Primitive {
    match s {
        Shape::Square => Primitive::Rectangle(cell_rect(p)),
        Shape::Circle => Primitive::Ellipse(cell_rect(p)),
        Shape::Triangle => Primitive::Polygon(cell_triangle(p)),
    }
}

impl Block {
    /// The cell this block stands in.
    pub closed spec fn spec_position(&self) -> Position {
        self.position
    }

    /// The shape this block is drawn as.
    pub closed spec fn spec_shape(&self) -> Shape {
        self.shape
    }

    pub fn new(position: Position, shape: Shape) -> (r: Block)
        ensures
            r.spec_position() == position,
            r.spec_shape() == shape,
    {
        Block { position, shape }
    }

    /// The primitive that draws this block: its cell filled as a square, a
    /// circle, or the triangle of the cell's three non-origin corners.
    pub fn draw(&self) -> (r: Primitive)
        ensures
            r == shape_primitive(self.spec_position(), self.spec_shape()),
    {
        let c = self.position.to_coord();
        let Coord(x, y) = c;
        match self.shape {
            Shape::Square => Primitive::Rectangle(Rect { x, y, width: BLOCK_SIZE, height: BLOCK_SIZE }),
            Shape::Circle => Primitive::Ellipse(Rect { x, y, width: BLOCK_SIZE, height: BLOCK_SIZE }),
            Shape::Triangle => Primitive::Polygon(
                [
                    Coord(x + BLOCK_SIZE, y),
                    Coord(x, y + BLOCK_SIZE),
                    Coord(x + BLOCK_SIZE, y + BLOCK_SIZE),
                ],
            ),
        }
    }

    pub fn get_position(&self) -> (r: &Position)
        ensures
            *r == self.spec_position(),
    {
        &self.position
    }

    pub fn set_position(&mut self, position: Position)
        ensures
            final(self).spec_position() == position,
            final(self).spec_shape() == old(self).spec_shape(),
    {
        self.position = position;
    }

    pub fn get_shape(&self) -> (r: &Shape)
        ensures
            *r == self.spec_shape(),
    {
        &self.shape
    }

    pub fn set_shape(&mut self, shape: Shape)
        ensures
            final(self).spec_shape() == shape,
            final(self).spec_position() == old(self).spec_position(),
    {
        self.shape = shape;
    }
}

/// The rectangle covering `width` by `height` cells from cell `p`.
pub open spec fn cells_rect(p: Position, width: u32, height: u32) -> Rect {
    let c = coord_of(p);
    Rect {
        x: c.0,
        y: c.1,
        width: (width * BLOCK_SIZE) as i64,
        height: (height * BLOCK_SIZE) as i64,
    }
}

/// The filled rectangle of `width` by `height` cells whose top-left cell is
/// `position`.
pub fn draw_rectangle(position: Position, width: u32, height: u32) -> (r: Primitive)
    ensures
        r == Primitive::Rectangle(cells_rect(position, width, height)),
{
    let Coord(x, y) = position.to_coord();
    Primitive::Rectangle(
        Rect { x, y, width: width as i64 * BLOCK_SIZE, height: height as i64 * BLOCK_SIZE },
    )
}

/// Where the two eyes sit in a cell for a head facing `d`, as
/// (first x, first y, second x, second y) in fifths of a cell from its corner.
/// The eyes stand side by side across the facing direction, on its side of the
/// cell.
pub open spec fn eye_fifths(d: Direction) -> (int, int, int, int) {
    match d {
        Direction::Up => (1, 1, 3, 1),
        Direction::Down => (1, 3, 3, 3),
        Direction::Left => (1, 1, 1, 3),
        Direction::Right => (3, 1, 3, 3),
    }
}

/// An eye of one fifth of a cell whose corner is `(fx, fy)` fifths from the
/// corner of cell `p`.
pub open spec fn eye_at(p: Position, fx: int, fy: int) -> Primitive {
    let c = coord_of(p);
    Primitive::Ellipse(
        Rect {
            x: (c.0 + fx * EYE_SIZE) as i64,
            y: (c.1 + fy * EYE_SIZE) as i64,
            width: EYE_SIZE,
            height: EYE_SIZE,
        },
    )
}

/// The two eyes of a head in cell `p` facing `d`.
pub open spec fn eyes_of(p: Position, d: Direction) -> (Primitive, Primitive) {
    let (x1, y1, x2, y2) = eye_fifths(d);
    (eye_at(p, x1, y1), eye_at(p, x2, y2))
}

fn eye(corner: Coord, fx: i64, fy: i64) -> (r: Primitive)
    requires
        0 <= corner.0 <= u32::MAX * BLOCK_SIZE,
        0 <= corner.1 <= u32::MAX * BLOCK_SIZE,
        0 <= fx <= 3,
        0 <= fy <= 3,
    ensures
        r == (Primitive::Ellipse(
            Rect {
                x: (corner.0 + fx * EYE_SIZE) as i64,
                y: (corner.1 + fy * EYE_SIZE) as i64,
                width: EYE_SIZE,
                height: EYE_SIZE,
            },
        )),
{
    Primitive::Ellipse(
        Rect {
            x: corner.0 + fx * EYE_SIZE,
            y: corner.1 + fy * EYE_SIZE,
            width: EYE_SIZE,
            height: EYE_SIZE,
        },
    )
}

/// The two white eyes drawn on `head` when it faces `direction`: ellipses one
/// fifth of a cell across, placed by `eye_fifths`.
pub fn draw_eyes(head: &Block, direction: &Direction) -> (r: (Primitive, Primitive))
    ensures
        r == eyes_of(head.spec_position(), *direction),
{
    let corner = head.position.to_coord();
    let (x1, y1, x2, y2): (i64, i64, i64, i64) = match direction {
        Direction::Up => (1, 1, 3, 1),
        Direction::Down => (1, 3, 3, 3),
        Direction::Left => (1, 1, 1, 3),
        Direction::Right => (3, 1, 3, 3),
    };
    (eye(corner, x1, y1), eye(corner, x2, y2))
}

} // verus!
