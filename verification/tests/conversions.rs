use russimp::convert::ConvertFrom;
use russimp::convert::ConvertInto;
use russimp::types::Matrix4x4;
use russimp::types::NativeAabb;
use russimp::types::NativeColor3D;
use russimp::types::NativeColor4D;
use russimp::types::NativeMatrix4x4;
use russimp::types::NativeQuaternion;
use russimp::types::NativeVector2D;
use russimp::types::NativeVector3D;
use russimp::types::Quaternion;
use russimp::types::Vector2D;
use russimp::types::Vector3D;
use russimp::AABB;
use russimp::Color3D;
use russimp::Color4D;

fn native_matrix(rows: [[f32; 4]; 4]) -> NativeMatrix4x4 {
    NativeMatrix4x4 {
        a1: rows[0][0].to_bits(),
        a2: rows[0][1].to_bits(),
        a3: rows[0][2].to_bits(),
        a4: rows[0][3].to_bits(),
        b1: rows[1][0].to_bits(),
        b2: rows[1][1].to_bits(),
        b3: rows[1][2].to_bits(),
        b4: rows[1][3].to_bits(),
        c1: rows[2][0].to_bits(),
        c2: rows[2][1].to_bits(),
        c3: rows[2][2].to_bits(),
        c4: rows[2][3].to_bits(),
        d1: rows[3][0].to_bits(),
        d2: rows[3][1].to_bits(),
        d3: rows[3][2].to_bits(),
        d4: rows[3][3].to_bits(),
    }
}

fn to_glam(matrix: &Matrix4x4) -> glam::Mat4 {
    glam::Mat4::from_cols(
        glam::vec4(
            f32::from_bits(matrix.x_axis.x),
            f32::from_bits(matrix.x_axis.y),
            f32::from_bits(matrix.x_axis.z),
            f32::from_bits(matrix.x_axis.w),
        ),
        glam::vec4(
            f32::from_bits(matrix.y_axis.x),
            f32::from_bits(matrix.y_axis.y),
            f32::from_bits(matrix.y_axis.z),
            f32::from_bits(matrix.y_axis.w),
        ),
        glam::vec4(
            f32::from_bits(matrix.z_axis.x),
            f32::from_bits(matrix.z_axis.y),
            f32::from_bits(matrix.z_axis.z),
            f32::from_bits(matrix.z_axis.w),
        ),
        glam::vec4(
            f32::from_bits(matrix.w_axis.x),
            f32::from_bits(matrix.w_axis.y),
            f32::from_bits(matrix.w_axis.z),
            f32::from_bits(matrix.w_axis.w),
        ),
    )
}

#[test]
fn matrix_identity_maps_to_target_identity() {
    let native = native_matrix([
        [1.0, 0.0, 0.0, 0.0],
        [0.0, 1.0, 0.0, 0.0],
        [0.0, 0.0, 1.0, 0.0],
        [0.0, 0.0, 0.0, 1.0],
    ]);
    let matrix: Matrix4x4 = native.convert_into();
    assert_eq!(to_glam(&matrix), glam::Mat4::IDENTITY);
}

#[test]
fn matrix_conversion_builds_columns_from_native_rows() {
    let native = native_matrix([
        [11.0, 12.0, 13.0, 14.0],
        [21.0, 22.0, 23.0, 24.0],
        [31.0, 32.0, 33.0, 34.0],
        [41.0, 42.0, 43.0, 44.0],
    ]);
    let matrix: Matrix4x4 = native.convert_into();
    let converted = to_glam(&matrix);
    let expected = glam::Mat4::from_cols(
        glam::vec4(11.0, 21.0, 31.0, 41.0),
        glam::vec4(12.0, 22.0, 32.0, 42.0),
        glam::vec4(13.0, 23.0, 33.0, 43.0),
        glam::vec4(14.0, 24.0, 34.0, 44.0),
    );
    assert_eq!(converted, expected);
}

#[test]
fn quaternion_identity_maps_without_reordering() {
    let native = NativeQuaternion {
        x: 0.0f32.to_bits(),
        y: 0.0f32.to_bits(),
        z: 0.0f32.to_bits(),
        w: 1.0f32.to_bits(),
    };
    let quaternion: Quaternion = native.convert_into();
    let converted = glam::Quat::from_xyzw(
        f32::from_bits(quaternion.x),
        f32::from_bits(quaternion.y),
        f32::from_bits(quaternion.z),
        f32::from_bits(quaternion.w),
    );
    assert_eq!(converted, glam::Quat::IDENTITY);
}

#[test]
fn quaternion_components_stay_in_place() {
    let native = NativeQuaternion {
        x: 0.5f32.to_bits(),
        y: 0.25f32.to_bits(),
        z: 0.125f32.to_bits(),
        w: 2.0f32.to_bits(),
    };
    let quaternion: Quaternion = native.convert_into();
    assert_eq!(f32::from_bits(quaternion.x), 0.5);
    assert_eq!(f32::from_bits(quaternion.y), 0.25);
    assert_eq!(f32::from_bits(quaternion.z), 0.125);
    assert_eq!(f32::from_bits(quaternion.w), 2.0);
}

#[test]
fn color4d_round_trips_exact_fields() {
    let native = NativeColor4D {
        r: 0.1f32.to_bits(),
        g: 0.2f32.to_bits(),
        b: 0.3f32.to_bits(),
        a: 0.4f32.to_bits(),
    };
    let color = Color4D::convert_from(&native);
    assert_eq!(f32::from_bits(color.r), 0.1);
    assert_eq!(f32::from_bits(color.g), 0.2);
    assert_eq!(f32::from_bits(color.b), 0.3);
    assert_eq!(f32::from_bits(color.a), 0.4);
}

#[test]
fn color3d_copies_fields() {
    let native = NativeColor3D {
        r: 0.75f32.to_bits(),
        g: 0.5f32.to_bits(),
        b: 0.25f32.to_bits(),
    };
    let color = Color3D::convert_from(&native);
    assert_eq!(f32::from_bits(color.r), 0.75);
    assert_eq!(f32::from_bits(color.g), 0.5);
    assert_eq!(f32::from_bits(color.b), 0.25);
}

#[test]
fn vector_conversions_copy_components() {
    let native3 = NativeVector3D {
        x: 1.0f32.to_bits(),
        y: 2.0f32.to_bits(),
        z: 3.0f32.to_bits(),
    };
    let owned3 = Vector3D::convert_from(&native3);
    let foreign3: Vector3D = native3.convert_into();
    assert_eq!(owned3, foreign3);
    let converted3 = glam::Vec3::new(
        f32::from_bits(owned3.x),
        f32::from_bits(owned3.y),
        f32::from_bits(owned3.z),
    );
    assert_eq!(converted3, glam::Vec3::new(1.0, 2.0, 3.0));

    let native2 = NativeVector2D { x: 4.0f32.to_bits(), y: 5.0f32.to_bits() };
    let owned2: Vector2D = native2.convert_into();
    let converted2 = glam::Vec2::new(f32::from_bits(owned2.x), f32::from_bits(owned2.y));
    assert_eq!(converted2, glam::Vec2::new(4.0, 5.0));
}

#[test]
fn aabb_copies_both_corners() {
    let native = NativeAabb {
        min: NativeVector3D {
            x: (-1.0f32).to_bits(),
            y: (-2.0f32).to_bits(),
            z: (-3.0f32).to_bits(),
        },
        max: NativeVector3D {
            x: 1.0f32.to_bits(),
            y: 2.0f32.to_bits(),
            z: 3.0f32.to_bits(),
        },
    };
    let aabb = AABB::convert_from(&native);
    assert_eq!(f32::from_bits(aabb.min.x), -1.0);
    assert_eq!(f32::from_bits(aabb.min.y), -2.0);
    assert_eq!(f32::from_bits(aabb.min.z), -3.0);
    assert_eq!(f32::from_bits(aabb.max.x), 1.0);
    assert_eq!(f32::from_bits(aabb.max.y), 2.0);
    assert_eq!(f32::from_bits(aabb.max.z), 3.0);
}

#[test]
fn defaults_hold_zero_bits() {
    assert_eq!(Color4D::default(), Color4D { r: 0, g: 0, b: 0, a: 0 });
    assert_eq!(Color3D::default(), Color3D { r: 0, g: 0, b: 0 });
    assert_eq!(Vector2D::default(), Vector2D { x: 0, y: 0 });
    let aabb = AABB::default();
    assert_eq!(aabb.min, Vector3D { x: 0, y: 0, z: 0 });
    assert_eq!(aabb.max, Vector3D { x: 0, y: 0, z: 0 });
    assert_eq!(f32::from_bits(Color4D::default().a), 0.0);
}
