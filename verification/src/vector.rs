//! Vectors: the unbounded mathematical ones that contracts speak of, and the machine
//! ones that programs hold.
use vstd::prelude::*;

verus! {

/// A vector with three unbounded integer coordinates. `y` is the vertical axis.
pub struct Vector {
    pub x: int,
    pub y: int,
    pub z: int,
}

impl Vector {
    /// The vector with all coordinates zero.
    pub open spec fn zero() -> Vector {
        Vector { x: 0, y: 0, z: 0 }
    }

    /// Coordinate-wise sum.
    pub open spec fn plus(self, other: Vector) -> Vector {
        Vector { x: self.x + other.x, y: self.y + other.y, z: self.z + other.z }
    }

    /// The opposite vector.
    pub open spec fn negated(self) -> Vector {
        Vector { x: -self.x, y: -self.y, z: -self.z }
    }

    /// The projection onto the horizontal plane: the vertical coordinate becomes zero.
    pub open spec fn flat(self) -> Vector {
        Vector { x: self.x, y: 0, z: self.z }
    }

    /// Whether this is the zero vector.
    pub open spec fn is_zero(self) -> bool {
        self.x == 0 && self.y == 0 && self.z == 0
    }

    /// The square of the Euclidean length.
    pub open spec fn norm_sq(self) -> int {
        self.x * self.x + self.y * self.y + self.z * self.z
    }

    /// The scalar product with `other`: positive where the two point the same way.
    pub open spec fn dot(self, other: Vector) -> int {
        self.x * other.x + self.y * other.y + self.z * other.z
    }

    /// The vertical coordinate of the cross product with `other`: zero where the horizontal
    /// parts of the two are parallel.
    pub open spec fn cross(self, other: Vector) -> int {
        self.z * other.x - self.x * other.z
    }
}

/// A vector with 64-bit coordinates. `y` is the vertical axis.
#[derive(Clone, Copy, Debug, PartialEq, Eq, Structural)]
pub struct Vec3 {
    pub x: i64,
    pub y: i64,
    pub z: i64,
}

impl View for Vec3 {
    type V = Vector;

    open spec fn view(&self) -> Vector {
        Vector { x: self.x as int, y: self.y as int, z: self.z as int }
    }
}

impl Vec3 {
    /// The vector with the given coordinates.
    pub fn new(x: i64, y: i64, z: i64) -> (v: Vec3)
        ensures
            v.x == x,
            v.y == y,
            v.z == z,
    {
        Vec3 { x, y, z }
    }

    /// The zero vector.
    pub fn zero() -> (v: Vec3)
        ensures
            v@ == Vector::zero(),
    {
        Vec3 { x: 0, y: 0, z: 0 }
    }

    /// The projection onto the horizontal plane.
    pub fn flatten(self) -> (v: Vec3)
        ensures
            v@ == self@.flat(),
    {
        Vec3 { x: self.x, y: 0, z: self.z }
    }

    /// Whether all three coordinates are zero.
    pub fn is_zero(&self) -> (b: bool)
        ensures
            b == self@.is_zero(),
    {
        self.x == 0 && self.y == 0 && self.z == 0
    }
}

} // verus!
