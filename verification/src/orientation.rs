//! The camera's orientation, as the vectors it reports.
//!
//! An orientation is held as the vector that points ahead of the camera and the one that
//! points to its left. The vectors that point right and back are their opposites. Nothing
//! is asked of the lengths of the two: they are summed as they are given.
use vstd::prelude::*;
use crate::keys::Key;
use crate::vector::{Vec3, Vector};

verus! {

/// An orientation over unbounded coordinates.
pub struct Frame {
    pub forward: Vector,
    pub left: Vector,
}

impl Frame {
    /// The vector that points to the right: the opposite of `left`.
    pub open spec fn right(self) -> Vector {
        self.left.negated()
    }

    /// The vector that points back: the opposite of `forward`.
    pub open spec fn back(self) -> Vector {
        self.forward.negated()
    }

    /// The vector that belongs to a movement key.
    pub open spec fn toward(self, key: Key) -> Vector {
        match key {
            Key::Forward => self.forward,
            Key::Left => self.left,
            Key::Right => self.right(),
            Key::Back => self.back(),
        }
    }
}

/// One of the camera's vectors, with 32-bit coordinates: short enough that any sum of a
/// few of them, or of their opposites, fits 64 bits. `y` is the vertical axis.
#[derive(Clone, Copy, Debug, PartialEq, Eq, Structural)]
pub struct Direction {
    pub x: i32,
    pub y: i32,
    pub z: i32,
}

impl View for Direction {
    type V = Vector;

    open spec fn view(&self) -> Vector {
        Vector { x: self.x as int, y: self.y as int, z: self.z as int }
    }
}

impl Direction {
    /// The direction with the given coordinates.
    pub fn new(x: i32, y: i32, z: i32) -> (d: Direction)
        ensures
            d.x == x,
            d.y == y,
            d.z == z,
    {
        Direction { x, y, z }
    }
}

/// The camera's orientation.
#[derive(Clone, Copy, Debug, PartialEq, Eq, Structural)]
pub struct Orientation {
    pub forward: Direction,
    pub left: Direction,
}

impl View for Orientation {
    type V = Frame;

    open spec fn view(&self) -> Frame {
        Frame { forward: self.forward@, left: self.left@ }
    }
}

impl Orientation {
    /// The orientation with the given forward and left vectors.
    pub fn new(forward: Direction, left: Direction) -> (o: Orientation)
        ensures
            o.forward == forward,
            o.left == left,
    {
        Orientation { forward, left }
    }

    /// The vector that belongs to a movement key.
    pub fn toward(&self, key: Key) -> (v: Vec3)
        ensures
            v@ == self@.toward(key),
    {
        match key {
            Key::Forward => widen(self.forward, false),
            Key::Left => widen(self.left, false),
            Key::Right => widen(self.left, true),
            Key::Back => widen(self.forward, true),
        }
    }
}

/// A direction in 64-bit coordinates, or its opposite.
fn widen(d: Direction, opposite: bool) -> (v: Vec3)
    ensures
        v@ == if opposite {
            d@.negated()
        } else {
            d@
        },
{
    let x: i64 = d.x as i64;
    let y: i64 = d.y as i64;
    let z: i64 = d.z as i64;
    if opposite {
        Vec3 { x: -x, y: -y, z: -z }
    } else {
        Vec3 { x, y, z }
    }
}

} // verus!
