//! Owned value types of the translation layer and the in-process image of
//! their native counterparts.
//!
//! The native importer hands out flat structs of 32-bit floating-point
//! components. This layer never interprets those components numerically: it
//! copies them bit-for-bit into owned values. Each scalar field here
//! therefore holds the raw 32-bit pattern of one native component, which
//! makes the field-to-field mappings — in particular the column remap of the
//! 4x4 matrix — exact, checkable statements.

use vstd::prelude::*;

use crate::convert::ConvertFrom;
use crate::convert::ConvertInto;

verus! {

/// Native two-component vector: the raw bit patterns of `x` and `y`.
#[derive(Clone, Copy, PartialEq, Eq, Structural, Debug)]
pub struct NativeVector2D {
    pub x: u32,
    pub y: u32,
}

/// Native three-component vector: the raw bit patterns of `x`, `y`, `z`.
#[derive(Clone, Copy, PartialEq, Eq, Structural, Debug)]
pub struct NativeVector3D {
    pub x: u32,
    pub y: u32,
    pub z: u32,
}

/// Native quaternion: the raw bit patterns of `x`, `y`, `z`, `w`.
#[derive(Clone, Copy, PartialEq, Eq, Structural, Debug)]
pub struct NativeQuaternion {
    pub x: u32,
    pub y: u32,
    pub z: u32,
    pub w: u32,
}

/// Native three-channel color: the raw bit patterns of `r`, `g`, `b`.
#[derive(Clone, Copy, PartialEq, Eq, Structural, Debug)]
pub struct NativeColor3D {
    pub r: u32,
    pub g: u32,
    pub b: u32,
}

/// Native four-channel color: the raw bit patterns of `r`, `g`, `b`, `a`.
#[derive(Clone, Copy, PartialEq, Eq, Structural, Debug)]
pub struct NativeColor4D {
    pub r: u32,
    pub g: u32,
    pub b: u32,
    pub a: u32,
}

/// Native 4x4 matrix in row-major field order: `a1..a4` is the first row,
/// `b1..b4` the second, and so on, each field a raw bit pattern.
#[derive(Clone, Copy, PartialEq, Eq, Structural, Debug)]
pub struct NativeMatrix4x4 {
    pub a1: u32,
    pub a2: u32,
    pub a3: u32,
    pub a4: u32,
    pub b1: u32,
    pub b2: u32,
    pub b3: u32,
    pub b4: u32,
    pub c1: u32,
    pub c2: u32,
    pub c3: u32,
    pub c4: u32,
    pub d1: u32,
    pub d2: u32,
    pub d3: u32,
    pub d4: u32,
}

/// Native axis-aligned bounding box: two corner vectors.
#[derive(Clone, Copy, PartialEq, Eq, Structural, Debug)]
pub struct NativeAabb {
    pub min: NativeVector3D,
    pub max: NativeVector3D,
}

/// Owned two-component vector.
#[derive(Clone, Copy, PartialEq, Eq, Structural, Debug)]
pub struct Vector2D {
    pub x: u32,
    pub y: u32,
}

/// Owned three-component vector, the target of the native vector mapping.
#[derive(Clone, Copy, PartialEq, Eq, Structural, Debug)]
pub struct Vector3D {
    pub x: u32,
    pub y: u32,
    pub z: u32,
}

/// Owned four-component vector: one column of an owned matrix.
#[derive(Clone, Copy, PartialEq, Eq, Structural, Debug)]
pub struct Vector4D {
    pub x: u32,
    pub y: u32,
    pub z: u32,
    pub w: u32,
}

/// Owned quaternion, the target of the native quaternion mapping.
#[derive(Clone, Copy, PartialEq, Eq, Structural, Debug)]
pub struct Quaternion {
    pub x: u32,
    pub y: u32,
    pub z: u32,
    pub w: u32,
}

/// Owned 4x4 matrix in column-major composition: `x_axis` is the first
/// column, then `y_axis`, `z_axis`, `w_axis`.
#[derive(Clone, Copy, PartialEq, Eq, Structural, Debug)]
pub struct Matrix4x4 {
    pub x_axis: Vector4D,
    pub y_axis: Vector4D,
    pub z_axis: Vector4D,
    pub w_axis: Vector4D,
}

/// Owned three-channel color.
#[derive(Clone, Copy, PartialEq, Eq, Structural, Debug)]
pub struct Color3D {
    pub r: u32,
    pub g: u32,
    pub b: u32,
}

/// Owned four-channel color.
#[derive(Clone, Copy, PartialEq, Eq, Structural, Debug)]
pub struct Color4D {
    pub r: u32,
    pub g: u32,
    pub b: u32,
    pub a: u32,
}

/// Owned axis-aligned bounding box. Component-wise `min <= max` is expected
/// of well-formed native data but deliberately not enforced here: the box is
/// copied through unchanged.
#[derive(Clone, Copy, PartialEq, Eq, Structural, Debug)]
pub struct AABB {
    pub min: Vector3D,
    pub max: Vector3D,
}

impl Default for Vector2D {
    /// The all-zero vector (the bit pattern of floating-point zero).
    fn default() -> (result: Self)
        ensures
            result == (Vector2D { x: 0, y: 0 }),
    {
        Vector2D { x: 0, y: 0 }
    }
}

impl Default for Color3D {
    /// The all-zero color (the bit pattern of floating-point zero).
    fn default() -> (result: Self)
        ensures
            result == (Color3D { r: 0, g: 0, b: 0 }),
    {
        Color3D { r: 0, g: 0, b: 0 }
    }
}

impl Default for Color4D {
    /// The all-zero color (the bit pattern of floating-point zero).
    fn default() -> (result: Self)
        ensures
            result == (Color4D { r: 0, g: 0, b: 0, a: 0 }),
    {
        Color4D { r: 0, g: 0, b: 0, a: 0 }
    }
}

impl Default for AABB {
    /// The degenerate box with both corners at the origin.
    fn default() -> (result: Self)
        ensures
            result == (AABB {
                min: Vector3D { x: 0, y: 0, z: 0 },
                max: Vector3D { x: 0, y: 0, z: 0 },
            }),
    {
        AABB { min: Vector3D { x: 0, y: 0, z: 0 }, max: Vector3D { x: 0, y: 0, z: 0 } }
    }
}

impl ConvertFrom<NativeVector3D> for Vector3D {
    open spec fn spec_convert_from(value: NativeVector3D) -> Self {
        Vector3D { x: value.x, y: value.y, z: value.z }
    }

    fn convert_from(value: &NativeVector3D) -> (result: Self) {
        Vector3D { x: value.x, y: value.y, z: value.z }
    }
}

impl ConvertFrom<NativeColor3D> for Color3D {
    open spec fn spec_convert_from(value: NativeColor3D) -> Self {
        Color3D { r: value.r, g: value.g, b: value.b }
    }

    fn convert_from(value: &NativeColor3D) -> (result: Self) {
        Color3D { r: value.r, g: value.g, b: value.b }
    }
}

impl ConvertFrom<NativeColor4D> for Color4D {
    open spec fn spec_convert_from(value: NativeColor4D) -> Self {
        Color4D { r: value.r, g: value.g, b: value.b, a: value.a }
    }

    fn convert_from(value: &NativeColor4D) -> (result: Self) {
        Color4D { r: value.r, g: value.g, b: value.b, a: value.a }
    }
}

impl ConvertFrom<NativeAabb> for AABB {
    open spec fn spec_convert_from(value: NativeAabb) -> Self {
        AABB {
            min: Vector3D::spec_convert_from(value.min),
            max: Vector3D::spec_convert_from(value.max),
        }
    }

    fn convert_from(value: &NativeAabb) -> (result: Self) {
        AABB {
            min: Vector3D::convert_from(&value.min),
            max: Vector3D::convert_from(&value.max),
        }
    }
}

impl ConvertInto<Vector2D> for NativeVector2D {
    open spec fn spec_convert_into(self) -> Vector2D {
        Vector2D { x: self.x, y: self.y }
    }

    fn convert_into(&self) -> (result: Vector2D) {
        Vector2D { x: self.x, y: self.y }
    }
}

impl ConvertInto<Vector3D> for NativeVector3D {
    open spec fn spec_convert_into(self) -> Vector3D {
        Vector3D { x: self.x, y: self.y, z: self.z }
    }

    fn convert_into(&self) -> (result: Vector3D) {
        Vector3D { x: self.x, y: self.y, z: self.z }
    }
}

impl ConvertInto<Quaternion> for NativeQuaternion {
    /// Component order is preserved exactly: no reordering between the
    /// native and the target quaternion layout.
    open spec fn spec_convert_into(self) -> Quaternion {
        Quaternion { x: self.x, y: self.y, z: self.z, w: self.w }
    }

    fn convert_into(&self) -> (result: Quaternion) {
        Quaternion { x: self.x, y: self.y, z: self.z, w: self.w }
    }
}

impl ConvertInto<Matrix4x4> for NativeMatrix4x4 {
    /// The column remap of the matrix bridge: the target's columns are
    /// (a1,b1,c1,d1), (a2,b2,c2,d2), (a3,b3,c3,d3), (a4,b4,c4,d4). Every
    /// field moves bit-for-bit; a transpose error here would silently
    /// corrupt all downstream transforms.
    open spec fn spec_convert_into(self) -> Matrix4x4 {
        Matrix4x4 {
            x_axis: Vector4D { x: self.a1, y: self.b1, z: self.c1, w: self.d1 },
            y_axis: Vector4D { x: self.a2, y: self.b2, z: self.c2, w: self.d2 },
            z_axis: Vector4D { x: self.a3, y: self.b3, z: self.c3, w: self.d3 },
            w_axis: Vector4D { x: self.a4, y: self.b4, z: self.c4, w: self.d4 },
        }
    }

    fn convert_into(&self) -> (result: Matrix4x4) {
        Matrix4x4 {
            x_axis: Vector4D { x: self.a1, y: self.b1, z: self.c1, w: self.d1 },
            y_axis: Vector4D { x: self.a2, y: self.b2, z: self.c2, w: self.d2 },
            z_axis: Vector4D { x: self.a3, y: self.b3, z: self.c3, w: self.d3 },
            w_axis: Vector4D { x: self.a4, y: self.b4, z: self.c4, w: self.d4 },
        }
    }
}

} // verus!
