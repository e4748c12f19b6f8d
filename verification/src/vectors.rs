//! The 3- and 4-component vector types of the transform algebra.
//!
//! [`Vector3`] is the public point/direction representation at the system
//! boundary; [`Vector4`] is the homogeneous four-lane form, structurally
//! the result of extracting a matrix row or column. Both are plain value
//! types, generic over their scalar; a point is promoted to homogeneous
//! form by supplying the fourth lane explicitly and demoted by dropping
//! it again.

use vstd::prelude::*;

verus! {

/// A 3-component point or direction.
#[derive(Clone, Copy, PartialEq, Debug)]
pub struct Vector3<T> {
    pub x: T,
    pub y: T,
    pub z: T,
}

/// A 4-component homogeneous vector: the contents of one matrix row or
/// column, or a promoted [`Vector3`].
#[derive(Clone, Copy, PartialEq, Debug)]
pub struct Vector4<T> {
    pub x: T,
    pub y: T,
    pub z: T,
    pub w: T,
}

impl<T: Copy> Vector3<T> {
    pub fn new(x: T, y: T, z: T) -> (r: Vector3<T>)
        ensures
            r == (Vector3 { x, y, z }),
    {
        Vector3 { x, y, z }
    }

    pub fn x(&self) -> (r: T)
        ensures
            r == self.x,
    {
        self.x
    }

    pub fn y(&self) -> (r: T)
        ensures
            r == self.y,
    {
        self.y
    }

    pub fn z(&self) -> (r: T)
        ensures
            r == self.z,
    {
        self.z
    }

    pub fn with_x(&self, x: T) -> (r: Vector3<T>)
        ensures
            r == (Vector3 { x, ..*self }),
    {
        Vector3 { x, y: self.y, z: self.z }
    }

    pub fn with_y(&self, y: T) -> (r: Vector3<T>)
        ensures
            r == (Vector3 { y, ..*self }),
    {
        Vector3 { x: self.x, y, z: self.z }
    }

    pub fn with_z(&self, z: T) -> (r: Vector3<T>)
        ensures
            r == (Vector3 { z, ..*self }),
    {
        Vector3 { x: self.x, y: self.y, z }
    }

    /// The homogeneous form of the point, with `w` as its fourth lane.
    pub open spec fn promote_spec(&self, w: T) -> Vector4<T> {
        Vector4 { x: self.x, y: self.y, z: self.z, w }
    }

    /// Promotes the point to homogeneous form with the given fourth lane:
    /// `1` of the scalar type for a point, `0` for a pure direction.
    pub fn promote(&self, w: T) -> (r: Vector4<T>)
        ensures
            r == self.promote_spec(w),
    {
        Vector4 { x: self.x, y: self.y, z: self.z, w }
    }
}

impl<T: Copy> Vector4<T> {
    pub fn new(x: T, y: T, z: T, w: T) -> (r: Vector4<T>)
        ensures
            r == (Vector4 { x, y, z, w }),
    {
        Vector4 { x, y, z, w }
    }

    pub fn x(&self) -> (r: T)
        ensures
            r == self.x,
    {
        self.x
    }

    pub fn y(&self) -> (r: T)
        ensures
            r == self.y,
    {
        self.y
    }

    pub fn z(&self) -> (r: T)
        ensures
            r == self.z,
    {
        self.z
    }

    pub fn w(&self) -> (r: T)
        ensures
            r == self.w,
    {
        self.w
    }

    pub fn with_x(&self, x: T) -> (r: Vector4<T>)
        ensures
            r == (Vector4 { x, ..*self }),
    {
        Vector4 { x, y: self.y, z: self.z, w: self.w }
    }

    pub fn with_y(&self, y: T) -> (r: Vector4<T>)
        ensures
            r == (Vector4 { y, ..*self }),
    {
        Vector4 { x: self.x, y, z: self.z, w: self.w }
    }

    pub fn with_z(&self, z: T) -> (r: Vector4<T>)
        ensures
            r == (Vector4 { z, ..*self }),
    {
        Vector4 { x: self.x, y: self.y, z, w: self.w }
    }

    pub fn with_w(&self, w: T) -> (r: Vector4<T>)
        ensures
            r == (Vector4 { w, ..*self }),
    {
        Vector4 { x: self.x, y: self.y, z: self.z, w }
    }

    /// Demotes the homogeneous vector back to three components, dropping
    /// the fourth lane.
    pub fn demote(&self) -> (r: Vector3<T>)
        ensures
            r == (Vector3 { x: self.x, y: self.y, z: self.z }),
    {
        Vector3 { x: self.x, y: self.y, z: self.z }
    }
}

} // verus!
